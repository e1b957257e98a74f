use vstd::prelude::*;

verus! {

/// The decimal digit for `d < 10`.
pub open spec fn digit_char(d: nat) -> char {
    seq!['0', '1', '2', '3', '4', '5', '6', '7', '8', '9'][d as int]
}

/// The decimal notation of `n`, without sign or leading zeros.
pub open spec fn decimal(n: nat) -> Seq<char>
    decreases n,
{
    if n < 10 {
        seq![digit_char(n)]
    } else {
        decimal(n / 10) + seq![digit_char(n % 10)]
    }
}

/// The lowercase hexadecimal digit for `d < 16`.
pub open spec fn hex_digit(d: nat) -> char {
    seq!['0', '1', '2', '3', '4', '5', '6', '7', '8', '9', 'a', 'b', 'c', 'd', 'e', 'f'][d as int]
}

/// How one character is written inside a JSON string: quote and backslash
/// are escaped, the control characters below U+0020 take their short form or
/// `\u00xx`, and every other character stands as it is.
pub open spec fn json_escape(c: char) -> Seq<char> {
    if c == '"' {
        seq!['\\', '"']
    } else if c == '\\' {
        seq!['\\', '\\']
    } else if c == '\x08' {
        seq!['\\', 'b']
    } else if c == '\t' {
        seq!['\\', 't']
    } else if c == '\n' {
        seq!['\\', 'n']
    } else if c == '\x0c' {
        seq!['\\', 'f']
    } else if c == '\r' {
        seq!['\\', 'r']
    } else if (c as u32) < 0x20 {
        seq!['\\', 'u', '0', '0', hex_digit((c as u32 / 16) as nat), hex_digit((c as u32 % 16) as nat)]
    } else {
        seq![c]
    }
}

/// The JSON string literal that stands for `s`: its characters, escaped,
/// between double quotes.
pub open spec fn json_string_of(s: Seq<char>) -> Seq<char> {
    seq!['"'] + s.map_values(|c: char| json_escape(c)).flatten() + seq!['"']
}

/// Relies on `serde_json::to_string` on an unsigned integer: it writes the
/// decimal digits into a `Vec`, whose writes do not fail.
#[verifier::external_body]
fn count_json(n: usize) -> (r: Option<String>)
    ensures
        r is Some,
        r.unwrap()@ == decimal(n as nat),
{
    serde_json::to_string(&n).ok()
}

/// Relies on `serde_json::to_string` on a string slice: it writes the quoted,
/// escaped literal into a `Vec`, whose writes do not fail.
#[verifier::external_body]
fn string_json(s: &str) -> (r: Option<String>)
    ensures
        r is Some,
        r.unwrap()@ == json_string_of(s@),
{
    serde_json::to_string(s).ok()
}

/// The JSON object `{"docs_count":D,"terms_count":T}`.
pub open spec fn stats_text(docs: nat, terms: nat) -> Seq<char> {
    "{\"docs_count\":"@ + decimal(docs) + ",\"terms_count\":"@ + decimal(terms) + "}"@
}

/// Encodes the index's size metrics as a JSON object.
pub fn stats_json(docs: usize, terms: usize) -> (r: Option<String>)
    ensures
        r matches Some(s) && s@ == stats_text(docs as nat, terms as nat),
{
    let d = count_json(docs)?;
    let t = count_json(terms)?;
    let out = String::from_str("{\"docs_count\":").concat(d.as_str()).concat(
        ",\"terms_count\":",
    ).concat(t.as_str()).concat("}");
    Some(out)
}

/// One ranked match: where the document is, and its score already written as
/// a JSON number.
pub struct SearchHit {
    pub location: String,
    pub score: String,
}

/// The JSON object `{"location":L,"score":S}` of one match.
pub open spec fn hit_text(h: SearchHit) -> Seq<char> {
    "{\"location\":"@ + json_string_of(h.location@) + ",\"score\":"@ + h.score@ + "}"@
}

/// The objects of `hits`, in order, separated by commas.
pub open spec fn hits_items(hits: Seq<SearchHit>) -> Seq<char>
    decreases hits.len(),
{
    if hits.len() == 0 {
        Seq::empty()
    } else if hits.len() == 1 {
        hit_text(hits[0])
    } else {
        hits_items(hits.drop_last()) + ","@ + hit_text(hits.last())
    }
}

/// The JSON array of the matches in `hits`, in order.
pub open spec fn hits_text(hits: Seq<SearchHit>) -> Seq<char> {
    "["@ + hits_items(hits) + "]"@
}

/// Encodes one match as a JSON object.
pub fn hit_json(h: &SearchHit) -> (r: Option<String>)
    ensures
        r matches Some(s) && s@ == hit_text(*h),
{
    let loc = string_json(h.location.as_str())?;
    let out = String::from_str("{\"location\":").concat(loc.as_str()).concat(",\"score\":").concat(
        h.score.as_str(),
    ).concat("}");
    Some(out)
}

/// Encodes the matches, in the order given, as a JSON array.
pub fn hits_json(hits: &Vec<SearchHit>) -> (r: Option<String>)
    ensures
        r matches Some(s) && s@ == hits_text(hits@),
{
    let mut items = String::new();
    let mut i: usize = 0;
    while i < hits.len()
        invariant
            i <= hits@.len(),
            items@ == hits_items(hits@.take(i as int)),
        decreases hits.len() - i,
    {
        let one = hit_json(&hits[i])?;
        if i > 0 {
            items.append(",");
        }
        items.append(one.as_str());
        proof {
            let next = hits@.take(i + 1);
            assert(next.drop_last() =~= hits@.take(i as int));
            assert(next.last() == hits@[i as int]);
            if i == 0 {
                assert(hits@.take(0) =~= Seq::<SearchHit>::empty());
            }
        }
        i = i + 1;
    }
    assert(hits@.take(hits@.len() as int) =~= hits@);
    let out = String::from_str("[").concat(items.as_str()).concat("]");
    Some(out)
}

} // verus!
