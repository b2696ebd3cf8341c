use vstd::prelude::*;
use vstd::string::StringExecFns;
use vstd::utf8::encode_utf8;

verus! {

/// The text placed before the item number in every record's message.
pub open spec fn message_prefix() -> Seq<char> {
    "Successfully processed item \x23"@
}

/// The character of a decimal digit.
pub open spec fn digit_char(d: nat) -> char
    recommends
        d < 10,
{
    seq!['0', '1', '2', '3', '4', '5', '6', '7', '8', '9'][d as int]
}

/// The decimal notation of `n`, most significant digit first, without leading zeros.
pub open spec fn decimal(n: nat) -> Seq<char>
    decreases n,
{
    if n < 10 {
        seq![digit_char(n)]
    } else {
        decimal(n / 10).push(digit_char(n % 10))
    }
}

/// The number of bytes in the UTF-8 encoding of `s`.
pub open spec fn byte_len(s: Seq<char>) -> nat {
    encode_utf8(s).len()
}

/// Whether `c` is an ASCII decimal digit.
pub open spec fn is_digit(c: char) -> bool {
    '0' <= c && c <= '9'
}

/// The year of an RFC 3339 timestamp: four digits, or a sign and at least
/// four digits for years outside 0 to 9999.
pub open spec fn year_field(y: Seq<char>) -> bool {
    ||| y.len() == 4 && forall|i: int| 0 <= i < 4 ==> is_digit(#[trigger] y[i])
    ||| y.len() >= 5 && (y[0] == '+' || y[0] == '-') && forall|i: int|
        1 <= i < y.len() ==> is_digit(#[trigger] y[i])
}

/// `-MM-DDThh:mm:ss`, each field two digits.
pub open spec fn date_time_field(t: Seq<char>) -> bool {
    &&& t.len() == 15
    &&& t[0] == '-' && t[3] == '-' && t[6] == 'T' && t[9] == ':' && t[12] == ':'
    &&& forall|i: int|
        0 <= i < 15 && i != 0 && i != 3 && i != 6 && i != 9 && i != 12 ==> is_digit(
            #[trigger] t[i],
        )
}

/// Fractional seconds: nothing, or a point and three, six or nine digits.
pub open spec fn fraction_field(f: Seq<char>) -> bool {
    ||| f.len() == 0
    ||| (f.len() == 4 || f.len() == 7 || f.len() == 10) && f[0] == '.' && forall|i: int|
        1 <= i < f.len() ==> is_digit(#[trigger] f[i])
}

/// An RFC 3339 timestamp in UTC: `YYYY-MM-DDThh:mm:ss[.fraction]+00:00`.
pub open spec fn rfc3339_utc(s: Seq<char>) -> bool {
    exists|y: Seq<char>, t: Seq<char>, f: Seq<char>|
        #![trigger year_field(y), date_time_field(t), fraction_field(f)]
        year_field(y) && date_time_field(t) && fraction_field(f) && s == y + t + f
            + "+00:00"@
}

/// The message of the record that carries item number `n`.
pub open spec fn item_message(n: nat) -> Seq<char> {
    message_prefix() + decimal(n)
}

/// The payload of a record: what was measured of the line and when.
#[derive(Clone, Debug)]
pub struct RecordData {
    /// Length of the line in bytes of its UTF-8 encoding.
    pub length: usize,
    /// Time of processing, in RFC 3339 form.
    pub processed_at: String,
    /// Sequential number of the record, starting at 1.
    pub item_number: usize,
}

/// The outcome of processing one line.
#[derive(Clone, Debug)]
pub struct ProcessResult {
    /// Whether the line was processed successfully.
    pub success: bool,
    /// Human-readable description of the outcome.
    pub message: String,
    /// What was computed of the line, if anything.
    pub data: Option<RecordData>,
}

impl ProcessResult {
    /// The record that processing a line of `length` bytes as item `n` yields,
    /// apart from its timestamp.
    pub open spec fn describes(&self, length: nat, n: nat) -> bool {
        &&& self.success
        &&& self.message@ == item_message(n)
        &&& self.data is Some
        &&& self.data->Some_0.length == length
        &&& self.data->Some_0.item_number == n
    }
}

fn digit_str(d: usize) -> (r: &'static str)
    requires
        d < 10,
    ensures
        r@ == seq![digit_char(d as nat)],
{
    proof {
        reveal_strlit("0");
        reveal_strlit("1");
        reveal_strlit("2");
        reveal_strlit("3");
        reveal_strlit("4");
        reveal_strlit("5");
        reveal_strlit("6");
        reveal_strlit("7");
        reveal_strlit("8");
        reveal_strlit("9");
    }
    match d {
        0 => "0",
        1 => "1",
        2 => "2",
        3 => "3",
        4 => "4",
        5 => "5",
        6 => "6",
        7 => "7",
        8 => "8",
        _ => "9",
    }
}

/// Appends the decimal notation of `n` to `s`.
pub fn push_decimal(s: &mut String, n: usize)
    ensures
        final(s)@ == old(s)@ + decimal(n as nat),
    decreases n,
{
    if n >= 10 {
        push_decimal(s, n / 10);
        s.append(digit_str(n % 10));
        assert(s@ =~= old(s)@ + decimal(n as nat));
    } else {
        s.append(digit_str(n));
        assert(s@ =~= old(s)@ + decimal(n as nat));
    }
}

/// The message of the record with item number `n`.
pub fn make_message(n: usize) -> (r: String)
    ensures
        r@ == item_message(n as nat),
{
    proof {
        reveal_strlit("Successfully processed item \x23");
    }
    let mut s = String::from_str("Successfully processed item \x23");
    push_decimal(&mut s, n);
    s
}

} // verus!
