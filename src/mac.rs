use vstd::prelude::*;

verus! {

/// A hardware network address.
#[derive(Debug, Clone, Copy, PartialEq, Eq)]
pub struct MacAddress {
    pub raw: [u8; 6],
}

impl MacAddress {
    pub fn new(mac: [u8; 6]) -> (r: MacAddress)
        ensures
            r.raw == mac,
    {
        MacAddress { raw: mac }
    }

    /// Whether two addresses hold the same six bytes.
    pub fn same_as(&self, other: &MacAddress) -> (r: bool)
        ensures
            r == (self.raw@ == other.raw@),
    {
        let a = &self.raw;
        let b = &other.raw;
        let r = a[0] == b[0] && a[1] == b[1] && a[2] == b[2] && a[3] == b[3] && a[4] == b[4]
            && a[5] == b[5];
        if r {
            assert(a@ =~= b@);
        }
        r
    }
}

pub open spec fn is_hex_digit(c: u8) -> bool {
    (48 <= c <= 57) || (65 <= c <= 70) || (97 <= c <= 102)
}

/// The value of an ASCII hexadecimal digit.
pub open spec fn hex_value(c: u8) -> u8 {
    if c <= 57 {
        (c - 48) as u8
    } else if c <= 70 {
        (c - 55) as u8
    } else {
        (c - 87) as u8
    }
}

/// Text of hexadecimal digits, optionally separated by colons.
pub open spec fn valid_hex_text(s: Seq<u8>) -> bool {
    forall|i: int| 0 <= i < s.len() ==> is_hex_digit(#[trigger] s[i]) || s[i] == 58
}

/// The digit values of `s` from position `pos` on, colons skipped.
pub open spec fn digits_from(s: Seq<u8>, pos: nat) -> Seq<u8>
    decreases s.len() - pos,
{
    if pos >= s.len() {
        Seq::empty()
    } else if s[pos as int] == 58 {
        digits_from(s, pos + 1)
    } else {
        seq![hex_value(s[pos as int])] + digits_from(s, pos + 1)
    }
}

/// The bytes that a sequence of digit values spells, two digits a byte,
/// high digit first.
pub open spec fn bytes_of(d: Seq<u8>) -> Seq<u8>
    decreases d.len(),
{
    if d.len() < 2 {
        Seq::empty()
    } else {
        seq![(d[0] * 16 + d[1]) as u8] + bytes_of(d.subrange(2, d.len() as int))
    }
}

/// Every text is valid and spells a whole number of bytes.
pub open spec fn valid_hex_texts(strings: Seq<&[u8]>) -> bool {
    forall|i: int|
        0 <= i < strings.len() ==> valid_hex_text(#[trigger] strings[i]@) && digits_from(
            strings[i]@,
            0,
        ).len() % 2 == 0
}

/// The bytes that the first `n` texts spell, in order.
pub open spec fn decoded_bytes(strings: Seq<&[u8]>, n: nat) -> Seq<u8>
    decreases n,
{
    if n == 0 || n > strings.len() {
        Seq::empty()
    } else {
        decoded_bytes(strings, (n - 1) as nat) + bytes_of(digits_from(strings[n - 1]@, 0))
    }
}

proof fn lemma_digits_bounded(s: Seq<u8>, pos: nat)
    requires
        valid_hex_text(s),
    ensures
        digits_from(s, pos).len() <= s.len() - pos || (pos >= s.len() && digits_from(s, pos).len()
            == 0),
        forall|k: int|
            0 <= k < digits_from(s, pos).len() ==> #[trigger] digits_from(s, pos)[k] < 16,
    decreases s.len() - pos,
{
    if pos < s.len() {
        lemma_digits_bounded(s, pos + 1);
        let c = s[pos as int];
        assert(is_hex_digit(c) || c == 58);
    }
}

proof fn lemma_bytes_of_len(d: Seq<u8>)
    requires
        d.len() % 2 == 0,
    ensures
        bytes_of(d).len() == d.len() / 2,
    decreases d.len(),
{
    if d.len() >= 2 {
        lemma_bytes_of_len(d.subrange(2, d.len() as int));
    }
}

proof fn lemma_decoded_len_step(strings: Seq<&[u8]>, n: nat)
    requires
        n < strings.len(),
        valid_hex_texts(strings),
    ensures
        decoded_bytes(strings, n + 1).len() == decoded_bytes(strings, n).len() + digits_from(
            strings[n as int]@,
            0,
        ).len() / 2,
{
    assert(valid_hex_text(strings[n as int]@));
    lemma_bytes_of_len(digits_from(strings[n as int]@, 0));
}

proof fn lemma_decoded_len_monotonic(strings: Seq<&[u8]>, m: nat, n: nat)
    requires
        m <= n <= strings.len(),
        valid_hex_texts(strings),
    ensures
        decoded_bytes(strings, m).len() <= decoded_bytes(strings, n).len(),
    decreases n - m,
{
    if m < n {
        lemma_decoded_len_step(strings, (n - 1) as nat);
        lemma_decoded_len_monotonic(strings, m, (n - 1) as nat);
    }
}

/// The next hexadecimal digit of `string` at or after `pos`, colons skipped,
/// with the position just after it.
pub fn next_hex_char(string: &[u8], pos: usize) -> (r: Option<(u8, usize)>)
    requires
        valid_hex_text(string@),
    ensures
        digits_from(string@, pos as nat).len() == 0 <==> r is None,
        r matches Some((v, p)) ==> {
            &&& v == digits_from(string@, pos as nat)[0]
            &&& pos < p <= string@.len()
            &&& digits_from(string@, p as nat) == digits_from(string@, pos as nat).drop_first()
        },
{
    let mut cur = pos;
    while cur < string.len()
        invariant
            valid_hex_text(string@),
            pos <= cur,
            digits_from(string@, pos as nat) == digits_from(string@, cur as nat),
        decreases string@.len() - cur,
    {
        let raw_val = string[cur];
        cur = cur + 1;
        if raw_val != 58 {
            assert(is_hex_digit(raw_val));
            let val = if raw_val <= 57 {
                raw_val - 48
            } else if raw_val <= 70 {
                raw_val - 55
            } else {
                raw_val - 87
            };
            assert(digits_from(string@, (cur - 1) as nat) =~= seq![val] + digits_from(
                string@,
                cur as nat,
            ));
            return Some((val, cur));
        }
    }
    None
}

/// The next byte of `string` at or after `pos`: two hexadecimal digits,
/// high first, with the position just after them.
pub fn next_byte(string: &[u8], pos: usize) -> (r: Option<(u8, usize)>)
    requires
        valid_hex_text(string@),
        digits_from(string@, pos as nat).len() % 2 == 0,
    ensures
        digits_from(string@, pos as nat).len() == 0 <==> r is None,
        r matches Some((b, p)) ==> {
            let d = digits_from(string@, pos as nat);
            &&& b == d[0] * 16 + d[1]
            &&& pos < p <= string@.len()
            &&& digits_from(string@, p as nat) == d.subrange(2, d.len() as int)
        },
{
    let ghost d = digits_from(string@, pos as nat);
    proof {
        lemma_digits_bounded(string@, pos as nat);
    }
    let (half1, pos) = match next_hex_char(string, pos) {
        Some(v) => v,
        None => return None,
    };
    let (half2, pos) = match next_hex_char(string, pos) {
        Some(v) => v,
        None => {
            assert(false);
            return None;
        },
    };
    assert(d.drop_first().drop_first() =~= d.subrange(2, d.len() as int));
    Some((half1 * 16 + half2, pos))
}

/// The number of bytes that hexadecimal texts spell together.
pub fn len(strings: &[&[u8]]) -> (r: usize)
    requires
        valid_hex_texts(strings@),
        decoded_bytes(strings@, strings@.len()).len() <= usize::MAX,
    ensures
        r == decoded_bytes(strings@, strings@.len()).len(),
{
    let mut i: usize = 0;
    let mut len: usize = 0;
    while i < strings.len()
        invariant
            i <= strings@.len(),
            valid_hex_texts(strings@),
            decoded_bytes(strings@, strings@.len()).len() <= usize::MAX,
            len == decoded_bytes(strings@, i as nat).len(),
        decreases strings@.len() - i,
    {
        let s = strings[i];
        assert(valid_hex_text(s@));
        let ghost total = digits_from(s@, 0);
        proof {
            lemma_decoded_len_step(strings@, i as nat);
            lemma_decoded_len_monotonic(strings@, (i + 1) as nat, strings@.len());
        }
        let mut pos: usize = 0;
        loop
            invariant
                valid_hex_text(s@),
                digits_from(s@, pos as nat).len() % 2 == 0,
                digits_from(s@, pos as nat).len() <= total.len(),
                total.len() % 2 == 0,
                len == decoded_bytes(strings@, i as nat).len() + (total.len() - digits_from(
                    s@,
                    pos as nat,
                ).len()) / 2,
                decoded_bytes(strings@, i as nat).len() + total.len() / 2 <= usize::MAX,
            ensures
                digits_from(s@, pos as nat).len() == 0,
                len == decoded_bytes(strings@, i as nat).len() + total.len() / 2,
            decreases s@.len() - pos,
        {
            match next_byte(s, pos) {
                Some((_, new_pos)) => {
                    len = len + 1;
                    pos = new_pos;
                },
                None => break,
            }
        }
        i = i + 1;
    }
    len
}

/// The bytes that hexadecimal texts spell together, as an array of their
/// exact total length.
pub fn decode<const LEN: usize>(strings: &[&[u8]]) -> (r: [u8; LEN])
    requires
        valid_hex_texts(strings@),
        decoded_bytes(strings@, strings@.len()).len() == LEN,
    ensures
        r@ == decoded_bytes(strings@, strings@.len()),
{
    let mut i: usize = 0;
    let mut buf: [u8; LEN] = [0u8; LEN];
    let mut buf_pos: usize = 0;
    while i < strings.len()
        invariant
            i <= strings@.len(),
            valid_hex_texts(strings@),
            decoded_bytes(strings@, strings@.len()).len() == LEN,
            buf@.len() == LEN,
            buf_pos == decoded_bytes(strings@, i as nat).len(),
            buf@.subrange(0, buf_pos as int) == decoded_bytes(strings@, i as nat),
        decreases strings@.len() - i,
    {
        let s = strings[i];
        assert(valid_hex_text(s@));
        let ghost total = digits_from(s@, 0);
        let ghost done = decoded_bytes(strings@, i as nat);
        let ghost consumed: Seq<u8> = Seq::empty();
        proof {
            lemma_decoded_len_step(strings@, i as nat);
            lemma_decoded_len_monotonic(strings@, (i + 1) as nat, strings@.len());
            lemma_bytes_of_len(total);
            assert(total == digits_from(s@, 0 as nat));
            assert(consumed + bytes_of(total) =~= bytes_of(total));
        }
        let mut pos: usize = 0;
        loop
            invariant
                valid_hex_text(s@),
                buf@.len() == LEN,
                digits_from(s@, pos as nat).len() % 2 == 0,
                consumed + bytes_of(digits_from(s@, pos as nat)) == bytes_of(total),
                done + bytes_of(total) == decoded_bytes(strings@, (i + 1) as nat),
                decoded_bytes(strings@, (i + 1) as nat).len() <= LEN,
                buf_pos == done.len() + consumed.len(),
                buf@.subrange(0, buf_pos as int) == done + consumed,
            ensures
                digits_from(s@, pos as nat).len() == 0,
                consumed + bytes_of(digits_from(s@, pos as nat)) == bytes_of(total),
                done + bytes_of(total) == decoded_bytes(strings@, (i + 1) as nat),
                buf@.len() == LEN,
                buf_pos == done.len() + consumed.len(),
                buf@.subrange(0, buf_pos as int) == done + consumed,
            decreases s@.len() - pos,
        {
            match next_byte(s, pos) {
                Some((byte, new_pos)) => {
                    let ghost d = digits_from(s@, pos as nat);
                    proof {
                        lemma_bytes_of_len(d);
                        lemma_bytes_of_len(digits_from(s@, new_pos as nat));
                        assert(bytes_of(d) == seq![byte] + bytes_of(digits_from(s@, new_pos as nat)));
                        assert(consumed.push(byte) + bytes_of(digits_from(s@, new_pos as nat))
                            =~= consumed + bytes_of(d));
                        assert((done + consumed.push(byte)).len() <= (done + bytes_of(total)).len());
                    }
                    let ghost before = buf@;
                    buf[buf_pos] = byte;
                    assert(buf@ == before.update(buf_pos as int, byte));
                    proof {
                        let target = done + consumed.push(byte);
                        assert(buf_pos < LEN);
                        assert forall|k: int| 0 <= k < buf_pos + 1 implies #[trigger] buf@.subrange(
                            0,
                            buf_pos + 1,
                        )[k] == target[k] by {
                            if k < buf_pos {
                                assert(before.subrange(0, buf_pos as int)[k] == (done + consumed)[k]);
                            }
                        }
                        assert(buf@.subrange(0, buf_pos + 1) =~= target);
                        consumed = consumed.push(byte);
                    }
                    buf_pos = buf_pos + 1;
                    pos = new_pos;
                },
                None => break,
            }
        }
        proof {
            assert(bytes_of(digits_from(s@, pos as nat)) =~= Seq::<u8>::empty());
            assert(consumed =~= bytes_of(total));
        }
        i = i + 1;
    }
    assert(buf@.subrange(0, LEN as int) =~= buf@);
    buf
}

} // verus!
