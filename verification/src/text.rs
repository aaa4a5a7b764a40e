use vstd::prelude::*;
use vstd::string::StringExecFns;

verus! {

/// The character of a decimal digit.
pub open spec fn decimal_digit(d: nat) -> char {
    (48 + d) as char
}

/// The decimal notation of `n`, without leading zeros.
pub open spec fn decimal(n: nat) -> Seq<char>
    decreases n,
{
    if n < 10 {
        seq![decimal_digit(n)]
    } else {
        decimal(n / 10) + seq![decimal_digit(n % 10)]
    }
}

/// The lowercase character of a hexadecimal digit.
pub open spec fn hex_digit(d: u8) -> char {
    if d < 10 {
        (48 + d) as char
    } else {
        (87 + d) as char
    }
}

/// Each byte as two lowercase hexadecimal digits, the high one first.
pub open spec fn hex_lower(data: Seq<u8>) -> Seq<char>
    decreases data.len(),
{
    if data.len() == 0 {
        Seq::empty()
    } else {
        hex_lower(data.drop_last()) + seq![
            hex_digit(data.last() >> 4u8),
            hex_digit(data.last() & 0x0fu8),
        ]
    }
}

/// The numbers in decimal notation, separated by `", "` and put in square brackets.
pub open spec fn decimal_list(ns: Seq<u64>) -> Seq<char> {
    "["@ + decimal_items(ns) + "]"@
}

/// The numbers in decimal notation, separated by `", "`.
pub open spec fn decimal_items(ns: Seq<u64>) -> Seq<char>
    decreases ns.len(),
{
    if ns.len() == 0 {
        Seq::empty()
    } else if ns.len() == 1 {
        decimal(ns[0] as nat)
    } else {
        decimal_items(ns.drop_last()) + ", "@ + decimal(ns.last() as nat)
    }
}

/// The text of one hexadecimal digit, in lowercase.
fn hex_digit_text(d: u8) -> (s: &'static str)
    requires
        d < 16,
    ensures
        s@ == seq![hex_digit(d)],
{
    proof {
        reveal_strlit("0");
        reveal_strlit("1");
        reveal_strlit("2");
        reveal_strlit("3");
        reveal_strlit("4");
        reveal_strlit("5");
        reveal_strlit("6");
        reveal_strlit("7");
        reveal_strlit("8");
        reveal_strlit("9");
        reveal_strlit("a");
        reveal_strlit("b");
        reveal_strlit("c");
        reveal_strlit("d");
        reveal_strlit("e");
        reveal_strlit("f");
    }
    if d == 0 {
        "0"
    } else if d == 1 {
        "1"
    } else if d == 2 {
        "2"
    } else if d == 3 {
        "3"
    } else if d == 4 {
        "4"
    } else if d == 5 {
        "5"
    } else if d == 6 {
        "6"
    } else if d == 7 {
        "7"
    } else if d == 8 {
        "8"
    } else if d == 9 {
        "9"
    } else if d == 10 {
        "a"
    } else if d == 11 {
        "b"
    } else if d == 12 {
        "c"
    } else if d == 13 {
        "d"
    } else if d == 14 {
        "e"
    } else {
        "f"
    }
}

/// Encodes `data` as lowercase hexadecimal text: each byte as two digits, the
/// high one first.
pub(crate) fn hex_encode(data: &[u8]) -> (s: String)
    ensures
        s@ == hex_lower(data@),
{
    let mut s = String::new();
    let mut i: usize = 0;
    while i < data.len()
        invariant
            i <= data@.len(),
            s@ == hex_lower(data@.take(i as int)),
        decreases data@.len() - i,
    {
        let b: u8 = data[i];
        assert(b >> 4u8 < 16u8 && b & 0x0fu8 < 16u8) by (bit_vector);
        s.append(hex_digit_text(b >> 4u8));
        s.append(hex_digit_text(b & 0x0fu8));
        assert(data@.take(i + 1).drop_last() =~= data@.take(i as int));
        assert(s@ =~= hex_lower(data@.take(i + 1)));
        i = i + 1;
    }
    assert(data@.take(data@.len() as int) =~= data@);
    s
}

/// The hexadecimal digits are those of the table `0123456789abcdef`: a digit below
/// ten is `'0'` plus it, any other is `'a'` plus its excess over ten.
pub proof fn lemma_hex_digit_table(d: u8)
    requires
        d < 16,
    ensures
        hex_digit(d) == "0123456789abcdef"@[d as int],
        d < 10 ==> hex_digit(d) as int == '0' as int + d,
        d >= 10 ==> hex_digit(d) as int == 'a' as int + (d - 10),
{
    reveal_strlit("0123456789abcdef");
}

/// The hexadecimal text of a byte sequence has two characters per byte: byte `i`
/// gives, at positions `2 i` and `2 i + 1`, the digit of its high half and then
/// the digit of its low half.
pub proof fn lemma_hex_lower_bytes(data: Seq<u8>)
    ensures
        hex_lower(data).len() == 2 * data.len(),
        forall|i: int|
            0 <= i < data.len() ==> {
                &&& #[trigger] hex_lower(data)[2 * i] == hex_digit(data[i] >> 4u8)
                &&& hex_lower(data)[2 * i + 1] == hex_digit(data[i] & 0x0fu8)
            },
    decreases data.len(),
{
    if data.len() > 0 {
        let init = data.drop_last();
        lemma_hex_lower_bytes(init);
        assert forall|i: int| 0 <= i < data.len() implies {
            &&& #[trigger] hex_lower(data)[2 * i] == hex_digit(data[i] >> 4u8)
            &&& hex_lower(data)[2 * i + 1] == hex_digit(data[i] & 0x0fu8)
        } by {
            if i < init.len() {
                assert(init[i] == data[i]);
                assert(hex_lower(init)[2 * i] == hex_digit(init[i] >> 4u8));
                assert(hex_lower(init)[2 * i + 1] == hex_digit(init[i] & 0x0fu8));
            }
        }
    }
}

/// The text of one decimal digit.
fn digit_text(d: u64) -> (s: &'static str)
    requires
        d < 10,
    ensures
        s@ == seq![decimal_digit(d as nat)],
{
    proof {
        reveal_strlit("0");
        reveal_strlit("1");
        reveal_strlit("2");
        reveal_strlit("3");
        reveal_strlit("4");
        reveal_strlit("5");
        reveal_strlit("6");
        reveal_strlit("7");
        reveal_strlit("8");
        reveal_strlit("9");
    }
    if d == 0 {
        "0"
    } else if d == 1 {
        "1"
    } else if d == 2 {
        "2"
    } else if d == 3 {
        "3"
    } else if d == 4 {
        "4"
    } else if d == 5 {
        "5"
    } else if d == 6 {
        "6"
    } else if d == 7 {
        "7"
    } else if d == 8 {
        "8"
    } else {
        "9"
    }
}

/// Appends the decimal notation of `n` to `s`.
pub fn push_decimal(s: &mut String, n: u64)
    ensures
        final(s)@ == old(s)@ + decimal(n as nat),
    decreases n,
{
    if n >= 10 {
        push_decimal(s, n / 10);
    }
    s.append(digit_text(n % 10));
    assert(final(s)@ =~= old(s)@ + decimal(n as nat)) by {
        if n < 10 {
            assert(n % 10 == n);
        }
    }
}

/// Appends the numbers of `ns`, in decimal notation and separated by `", "`, in
/// square brackets, to `s`.
pub fn push_decimal_list(s: &mut String, ns: &[u64])
    ensures
        final(s)@ == old(s)@ + decimal_list(ns@),
{
    let ghost start = s@;
    s.append("[");
    let mut i: usize = 0;
    while i < ns.len()
        invariant
            i <= ns@.len(),
            s@ == start + "["@ + decimal_items(ns@.take(i as int)),
        decreases ns@.len() - i,
    {
        let ghost before = s@;
        if i > 0 {
            s.append(", ");
        }
        push_decimal(s, ns[i]);
        assert(ns@.take(i + 1).drop_last() =~= ns@.take(i as int));
        assert(s@ =~= start + "["@ + decimal_items(ns@.take(i + 1)));
        i = i + 1;
    }
    assert(ns@.take(ns@.len() as int) =~= ns@);
    s.append("]");
    assert(s@ =~= start + decimal_list(ns@));
}

} // verus!
