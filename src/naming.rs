//! Names of files that the gallery creates: numbered variants for import
//! collisions and time-stamped names for pasted images.
use vstd::prelude::*;

verus! {

/// The decimal digit for `d < 10`.
pub open spec fn digit_char(d: nat) -> char {
    ((d + 48) as u8) as char
}

/// `n` in decimal, without leading zeros.
pub open spec fn decimal_of(n: nat) -> Seq<char>
    decreases n,
{
    if n < 10 {
        seq![digit_char(n)]
    } else {
        decimal_of(n / 10) + seq![digit_char(n % 10)]
    }
}

fn digit_str(d: u128) -> (r: &'static str)
    requires
        d < 10,
    ensures
        r@ == seq![digit_char(d as nat)],
{
    proof {
        reveal_strlit("0123456789");
    }
    let digits: &'static str = "0123456789";
    let r = digits.substring_char(d as usize, d as usize + 1);
    assert(r@ =~= seq![digits@[d as int]]);
    r
}

/// `n` in decimal.
pub fn decimal(n: u128) -> (r: String)
    ensures
        r@ == decimal_of(n as nat),
    decreases n,
{
    if n < 10 {
        String::from_str(digit_str(n))
    } else {
        let mut s = decimal(n / 10);
        s.append(digit_str(n % 10));
        s
    }
}

proof fn lemma_decimal_len(n: nat)
    ensures
        decimal_of(n).len() >= 1,
        n >= 10 ==> decimal_of(n).len() >= 2,
    decreases n,
{
    if n >= 10 {
        lemma_decimal_len(n / 10);
        assert(decimal_of(n) == decimal_of(n / 10) + seq![digit_char(n % 10)]);
    } else {
        assert(decimal_of(n) == seq![digit_char(n)]);
    }
}

/// Distinct numbers have distinct decimal forms.
pub proof fn lemma_decimal_injective(a: nat, b: nat)
    requires
        decimal_of(a) == decimal_of(b),
    ensures
        a == b,
    decreases a,
{
    lemma_decimal_len(a);
    lemma_decimal_len(b);
    if a >= 10 && b >= 10 {
        let da = decimal_of(a);
        let db = decimal_of(b);
        assert(da == decimal_of(a / 10) + seq![digit_char(a % 10)]);
        assert(db == decimal_of(b / 10) + seq![digit_char(b % 10)]);
        assert(decimal_of(a / 10) =~= da.drop_last());
        assert(decimal_of(b / 10) =~= db.drop_last());
        lemma_decimal_injective(a / 10, b / 10);
        assert(digit_char(a % 10) == da.last());
        assert(a % 10 == b % 10);
    } else if a < 10 && b < 10 {
        assert(decimal_of(a) == seq![digit_char(a)]);
        assert(decimal_of(b) == seq![digit_char(b)]);
        assert(decimal_of(a)[0] == digit_char(a));
    }
}

/// The `counter`-th alternative name for a file whose name has stem `stem`
/// and extension `ext` (empty when it has none): `stem_counter.ext`, or
/// `stem_counter` without an extension.
pub open spec fn numbered_name(stem: Seq<char>, ext: Seq<char>, counter: nat) -> Seq<char> {
    if ext.len() == 0 {
        stem + "_"@ + decimal_of(counter)
    } else {
        stem + "_"@ + decimal_of(counter) + "."@ + ext
    }
}

/// The `counter`-th alternative name for a file with this stem and
/// extension, tried when the plain name is taken.
pub fn collision_name(stem: &str, ext: &str, counter: u32) -> (r: String)
    ensures
        r@ == numbered_name(stem@, ext@, counter as nat),
{
    let mut name = String::from_str(stem);
    name.append("_");
    let digits = decimal(counter as u128);
    name.append(digits.as_str());
    if ext.unicode_len() > 0 {
        name.append(".");
        name.append(ext);
    }
    name
}

/// The destination name to try on the `attempt`-th probe when importing a
/// file named `file_name` (stem `stem`, extension `ext`): its own name first,
/// then the numbered names in order.
pub fn import_candidate(file_name: &str, stem: &str, ext: &str, attempt: u32) -> (r: String)
    ensures
        r@ == if attempt == 0 {
            file_name@
        } else {
            numbered_name(stem@, ext@, attempt as nat)
        },
{
    if attempt == 0 {
        String::from_str(file_name)
    } else {
        collision_name(stem, ext, attempt)
    }
}

/// Different counters give different names, so trying counters one after
/// another never proposes the same destination twice.
pub proof fn lemma_numbered_names_distinct(stem: Seq<char>, ext: Seq<char>, c1: nat, c2: nat)
    requires
        c1 != c2,
    ensures
        numbered_name(stem, ext, c1) != numbered_name(stem, ext, c2),
{
    reveal_strlit("_");
    reveal_strlit(".");
    if numbered_name(stem, ext, c1) == numbered_name(stem, ext, c2) {
        let n1 = numbered_name(stem, ext, c1);
        let d1 = decimal_of(c1);
        let d2 = decimal_of(c2);
        let p = stem.len() as int + 1;
        let tail = if ext.len() == 0 { 0 } else { 1 + ext.len() };
        assert("_"@.len() == 1);
        assert("."@.len() == 1);
        assert(n1.len() == p + d1.len() + tail);
        assert(numbered_name(stem, ext, c2).len() == p + d2.len() + tail);
        assert(d1.len() == d2.len());
        assert(forall|k: int| 0 <= k < d1.len() ==> n1[p + k] == d1[k]);
        assert(forall|k: int| 0 <= k < d2.len() ==> numbered_name(stem, ext, c2)[p + k] == d2[k]);
        assert(d1 =~= n1.subrange(p, p + d1.len() as int));
        assert(d2 =~= n1.subrange(p, p + d1.len() as int));
        lemma_decimal_injective(c1, c2);
    }
}

/// The name of an image pasted at `timestamp_millis` (milliseconds since the
/// epoch): `clipboard_<timestamp>.png`.
pub open spec fn clipboard_name(timestamp_millis: nat) -> Seq<char> {
    "clipboard_"@ + decimal_of(timestamp_millis) + ".png"@
}

/// The name of an image pasted at `timestamp_millis`.
pub fn clipboard_file_name(timestamp_millis: u128) -> (r: String)
    ensures
        r@ == clipboard_name(timestamp_millis as nat),
{
    let mut name = String::from_str("clipboard_");
    let digits = decimal(timestamp_millis);
    name.append(digits.as_str());
    name.append(".png");
    name
}

} // verus!
