//! Dotted-decimal IPv4 addresses, as the remote end reports its bind address.
use vstd::prelude::*;

verus! {

/// An IPv4 address as its four octets, most significant first.
#[derive(Clone, Copy, Debug, PartialEq, Eq, Structural)]
pub struct Ipv4 {
    pub a: u8,
    pub b: u8,
    pub c: u8,
    pub d: u8,
}

pub open spec fn is_digit(c: char) -> bool {
    '0' <= c && c <= '9'
}

pub open spec fn digit_value(c: char) -> nat {
    (c as u32 - '0' as u32) as nat
}

/// The character of the decimal digit `d`, for `d < 10`.
pub open spec fn digit_char(d: nat) -> char {
    ((d + 48) as u8) as char
}

/// The canonical decimal text of `n`: no sign and no leading zero.
pub open spec fn decimal(n: nat) -> Seq<char>
    decreases n,
{
    if n < 10 {
        seq![digit_char(n)]
    } else {
        decimal(n / 10).push(digit_char(n % 10))
    }
}

impl Ipv4 {
    /// The dotted-decimal text of the address, such as `192.168.0.1`.
    pub open spec fn text(self) -> Seq<char> {
        decimal(self.a as nat) + seq!['.'] + decimal(self.b as nat) + seq!['.']
            + decimal(self.c as nat) + seq!['.'] + decimal(self.d as nat)
    }

    /// The four octets, most significant first.
    pub fn octets(&self) -> (r: [u8; 4])
        ensures
            r@ == seq![self.a, self.b, self.c, self.d],
    {
        let r = [self.a, self.b, self.c, self.d];
        assert(r@ =~= seq![self.a, self.b, self.c, self.d]);
        r
    }
}

proof fn lemma_digit_char(d: nat)
    requires
        d < 10,
    ensures
        is_digit(digit_char(d)),
        digit_value(digit_char(d)) == d,
        digit_char(d) != '.',
{
}


/// Caps a running field value at 256: every larger value is just as invalid
/// as an octet.
pub open spec fn capped(x: nat) -> nat {
    if x > 256 {
        256
    } else {
        x
    }
}

/// A left-to-right reading of `s` by fields between dots: the values of the
/// fields already closed by a dot, and the value of the open one. A field
/// that holds anything but digits reads as 256.
pub open spec fn scan(s: Seq<char>) -> (Seq<nat>, nat)
    decreases s.len(),
{
    if s.len() == 0 {
        (seq![], 0)
    } else {
        let (done, cur) = scan(s.drop_last());
        let c = s.last();
        if c == '.' {
            (done.push(cur), 0)
        } else if is_digit(c) {
            (done, capped(cur * 10 + digit_value(c)))
        } else {
            (done, 256)
        }
    }
}

proof fn lemma_scan_decimal(p: Seq<char>, n: nat)
    requires
        scan(p).1 == 0,
        n <= 255,
    ensures
        scan(p + decimal(n)) == (scan(p).0, n),
    decreases n,
{
    lemma_digit_char(n % 10);
    if n < 10 {
        assert((p + decimal(n)).drop_last() =~= p);
    } else {
        lemma_scan_decimal(p, n / 10);
        assert((p + decimal(n)).drop_last() =~= p + decimal(n / 10));
    }
}

proof fn lemma_scan_dot(p: Seq<char>)
    ensures
        scan(p + seq!['.']) == (scan(p).0.push(scan(p).1), 0nat),
{
    assert((p + seq!['.']).drop_last() =~= p);
}

/// Reading the text of an address gives back its four octets.
proof fn lemma_scan_text(x: Ipv4)
    ensures
        scan(x.text()) == (seq![x.a as nat, x.b as nat, x.c as nat], x.d as nat),
{
    let e = Seq::<char>::empty();
    assert(e + decimal(x.a as nat) =~= decimal(x.a as nat));
    lemma_scan_decimal(e, x.a as nat);
    let p1 = decimal(x.a as nat) + seq!['.'];
    lemma_scan_dot(decimal(x.a as nat));
    lemma_scan_decimal(p1, x.b as nat);
    let p2 = p1 + decimal(x.b as nat) + seq!['.'];
    lemma_scan_dot(p1 + decimal(x.b as nat));
    lemma_scan_decimal(p2, x.c as nat);
    let p3 = p2 + decimal(x.c as nat) + seq!['.'];
    lemma_scan_dot(p2 + decimal(x.c as nat));
    lemma_scan_decimal(p3, x.d as nat);
    assert(scan(p1).0 =~= seq![x.a as nat]);
    assert(scan(p2).0 =~= seq![x.a as nat, x.b as nat]);
    assert(scan(p3).0 =~= seq![x.a as nat, x.b as nat, x.c as nat]);
}

/// Appends the decimal text of `n` to `out`.
fn push_decimal(out: &mut Vec<char>, n: u8)
    ensures
        final(out)@ == old(out)@ + decimal(n as nat),
{
    let ghost start = out@;
    if n >= 100 {
        out.push(((n / 100) + 48) as char);
    }
    if n >= 10 {
        out.push((((n / 10) % 10) + 48) as char);
    }
    out.push(((n % 10) + 48) as char);
    proof {
        reveal_with_fuel(decimal, 3);
        if n >= 100 {
            assert((n as nat / 10) / 10 == n as nat / 100);
            assert(out@ =~= start + decimal(n as nat));
        } else if n >= 10 {
            assert(out@ =~= start + decimal(n as nat));
        } else {
            assert(out@ =~= start + decimal(n as nat));
        }
    }
}


/// Parses dotted-decimal text into an address. The text must be exactly
/// four decimal octets, each at most 255 and without leading zeros,
/// separated by single dots: `Some` holds the one address whose text it is,
/// and `None` means that no address has that text.
pub fn parse_ipv4(s: &str) -> (r: Option<Ipv4>)
    ensures
        match r {
            Some(x) => s@ == x.text(),
            None => forall|x: Ipv4| s@ != #[trigger] x.text(),
        },
{
    let len = s.unicode_len();
    let mut dots: usize = 0;
    let mut v0: u32 = 0;
    let mut v1: u32 = 0;
    let mut v2: u32 = 0;
    let mut cur: u32 = 0;
    let mut i: usize = 0;
    while i < len
        invariant
            len == s@.len(),
            i <= len,
            dots <= i,
            dots == scan(s@.subrange(0, i as int)).0.len(),
            cur == scan(s@.subrange(0, i as int)).1,
            dots > 0 ==> v0 == scan(s@.subrange(0, i as int)).0[0],
            dots > 1 ==> v1 == scan(s@.subrange(0, i as int)).0[1],
            dots > 2 ==> v2 == scan(s@.subrange(0, i as int)).0[2],
            forall|j: int| 0 <= j < dots ==> scan(s@.subrange(0, i as int)).0[j] <= 256,
            cur <= 256,
        decreases len - i,
    {
        let c = s.get_char(i);
        let ghost before = s@.subrange(0, i as int);
        assert(s@.subrange(0, i + 1).drop_last() =~= before);
        if c == '.' {
            if dots == 0 {
                v0 = cur;
            } else if dots == 1 {
                v1 = cur;
            } else if dots == 2 {
                v2 = cur;
            }
            dots = dots + 1;
            cur = 0;
        } else if '0' <= c && c <= '9' {
            let next = cur * 10 + (c as u32 - '0' as u32);
            cur = if next > 256 {
                256
            } else {
                next
            };
        } else {
            cur = 256;
        }
        i = i + 1;
    }
    assert(s@.subrange(0, len as int) =~= s@);
    proof {
        assert forall|x: Ipv4| s@ == #[trigger] x.text() implies dots == 3 && v0 == x.a
            && v1 == x.b && v2 == x.c && cur == x.d by {
            lemma_scan_text(x);
        }
    }
    if dots != 3 || v0 > 255 || v1 > 255 || v2 > 255 || cur > 255 {
        return None;
    }
    let x = Ipv4 { a: v0 as u8, b: v1 as u8, c: v2 as u8, d: cur as u8 };
    assert(forall|y: Ipv4| s@ == #[trigger] y.text() ==> y == x);
    let mut text: Vec<char> = Vec::new();
    push_decimal(&mut text, x.a);
    text.push('.');
    push_decimal(&mut text, x.b);
    text.push('.');
    push_decimal(&mut text, x.c);
    text.push('.');
    push_decimal(&mut text, x.d);
    assert(text@ =~= x.text());
    if text.len() != len {
        return None;
    }
    let mut k: usize = 0;
    while k < len
        invariant
            len == s@.len(),
            len == text@.len(),
            text@ == x.text(),
            forall|y: Ipv4| s@ == #[trigger] y.text() ==> y == x,
            k <= len,
            forall|j: int| 0 <= j < k ==> s@[j] == text@[j],
        decreases len - k,
    {
        if s.get_char(k) != text[k] {
            assert(s@[k as int] != text@[k as int]);
            return None;
        }
        k = k + 1;
    }
    assert(s@ =~= text@);
    Some(x)
}


/// Two addresses with the same dotted-decimal text are the same address, so
/// that parsing gives back exactly the address that a text was made from.
pub proof fn lemma_text_determines_address(x: Ipv4, y: Ipv4)
    requires
        x.text() == y.text(),
    ensures
        x == y,
{
    lemma_scan_text(x);
    lemma_scan_text(y);
    assert(seq![x.a as nat, x.b as nat, x.c as nat][0] == x.a as nat);
    assert(seq![y.a as nat, y.b as nat, y.c as nat][0] == y.a as nat);
    assert(seq![x.a as nat, x.b as nat, x.c as nat][1] == x.b as nat);
    assert(seq![y.a as nat, y.b as nat, y.c as nat][1] == y.b as nat);
    assert(seq![x.a as nat, x.b as nat, x.c as nat][2] == x.c as nat);
    assert(seq![y.a as nat, y.b as nat, y.c as nat][2] == y.c as nat);
}

} // verus!
