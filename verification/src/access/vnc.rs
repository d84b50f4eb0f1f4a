//! VNC access to a guest, and the form that configures it.
use vstd::prelude::*;
use vstd::string::*;
use vstd::utf8::encode_utf8;

use crate::edit::{edit_field, end_of, typed, untouched};
use crate::key::{Key, is_down, is_left, is_right, is_up};
use crate::network::port_forwarding::opt_view;
use crate::text::{
    all_digits, dec, digits_value, find_char, find_char_in, is_digit, lemma_dec_digits, lemma_digits_value_bound, lemma_find_char, pow10, to_decimal,
    views,
};

verus! {

/// An IPv4 address, by its four octets.
#[derive(Debug, Clone, Copy, PartialEq, Eq, Structural)]
pub struct Ipv4 {
    pub a: u8,
    pub b: u8,
    pub c: u8,
    pub d: u8,
}

/// The dotted decimal form of an address (`a.b.c.d`).
pub open spec fn ipv4_text(ip: Ipv4) -> Seq<char> {
    dec(ip.a as nat) + "."@ + dec(ip.b as nat) + "."@ + dec(ip.c as nat) + "."@ + dec(ip.d as nat)
}

/// A dotted-decimal octet: one to three ASCII digits, no leading zero unless
/// it is `0` itself, value at most 255.
pub open spec fn octet_ok(p: Seq<char>) -> bool {
    &&& 1 <= p.len() <= 3
    &&& all_digits(p)
    &&& (p.len() > 1 ==> p[0] != '0')
    &&& digits_value(p) <= 255
}

/// The four dot-separated parts of `s`, when it has exactly three dots.
pub open spec fn dotted_parts(s: Seq<char>) -> Option<(Seq<char>, Seq<char>, Seq<char>, Seq<char>)> {
    match find_char(s, '.') {
        None => None,
        Some(k1) => {
            let r1 = s.skip(k1 + 1int);
            match find_char(r1, '.') {
                None => None,
                Some(k2) => {
                    let r2 = r1.skip(k2 + 1int);
                    match find_char(r2, '.') {
                        None => None,
                        Some(k3) => {
                            let r3 = r2.skip(k3 + 1int);
                            if find_char(r3, '.') is None {
                                Some((s.take(k1 as int), r1.take(k2 as int), r2.take(k3 as int), r3))
                            } else {
                                None
                            }
                        },
                    }
                },
            }
        },
    }
}

/// The address written in dotted decimal form in `s` (as `Ipv4Addr`'s parser
/// reads it: four octets, no sign, no leading zeros, nothing else).
pub open spec fn parsed_ipv4(s: Seq<char>) -> Option<Ipv4> {
    match dotted_parts(s) {
        Some((p1, p2, p3, p4)) => if octet_ok(p1) && octet_ok(p2) && octet_ok(p3) && octet_ok(p4) {
            Some(
                Ipv4 {
                    a: digits_value(p1) as u8,
                    b: digits_value(p2) as u8,
                    c: digits_value(p3) as u8,
                    d: digits_value(p4) as u8,
                },
            )
        } else {
            None
        },
        None => None,
    }
}

/// The first character of the decimal rendering of a positive number is not `0`.
proof fn lemma_dec_lead(n: nat)
    requires
        n >= 1,
    ensures
        dec(n)[0] != '0',
    decreases n,
{
    if n >= 10 {
        lemma_dec_lead(n / 10);
        lemma_dec_digits(n / 10);
        assert(dec(n)[0] == dec(n / 10)[0]);
    }
}

/// The decimal rendering of a byte value is a valid octet of that value.
proof fn lemma_dec_octet(n: nat)
    requires
        n <= 255,
    ensures
        octet_ok(dec(n)),
        digits_value(dec(n)) == n,
        find_char(dec(n), '.') is None,
{
    lemma_dec_digits(n);
    reveal_with_fuel(dec, 3);
    if n >= 10 {
        lemma_dec_lead(n);
    }
    lemma_find_char(dec(n), '.');
    if find_char(dec(n), '.') is Some {
        let k = find_char(dec(n), '.')->0;
        assert(is_digit(dec(n)[k as int]));
    }
}

/// In `x` followed by `c`, where `x` holds no `c`, the first `c` comes right
/// after `x`.
proof fn lemma_find_after(x: Seq<char>, c: char, y: Seq<char>)
    requires
        find_char(x, c) is None,
    ensures
        find_char(x + seq![c] + y, c) == Some(x.len()),
{
    let s = x + seq![c] + y;
    lemma_find_char(x, c);
    lemma_find_char(s, c);
    assert(s[x.len() as int] == c);
    if let Some(k) = find_char(s, c) {
        if k < x.len() {
            assert(s[k as int] == x[k as int]);
        }
    }
}

/// Four parts without dots, joined by dots, split back into themselves.
proof fn lemma_dotted(x1: Seq<char>, x2: Seq<char>, x3: Seq<char>, x4: Seq<char>)
    requires
        find_char(x1, '.') is None,
        find_char(x2, '.') is None,
        find_char(x3, '.') is None,
        find_char(x4, '.') is None,
    ensures
        dotted_parts(x1 + seq!['.'] + x2 + seq!['.'] + x3 + seq!['.'] + x4) == Some(
            (x1, x2, x3, x4),
        ),
{
    let r2 = x3 + seq!['.'] + x4;
    let r1 = x2 + seq!['.'] + r2;
    let s = x1 + seq!['.'] + r1;
    assert(x1 + seq!['.'] + x2 + seq!['.'] + x3 + seq!['.'] + x4 =~= s);
    lemma_find_after(x1, '.', r1);
    assert(s.skip(x1.len() + 1int) =~= r1);
    assert(s.take(x1.len() as int) =~= x1);
    lemma_find_after(x2, '.', r2);
    assert(r1.skip(x2.len() + 1int) =~= r2);
    assert(r1.take(x2.len() as int) =~= x2);
    lemma_find_after(x3, '.', x4);
    assert(r2.skip(x3.len() + 1int) =~= x4);
    assert(r2.take(x3.len() as int) =~= x3);
}

/// An address written in dotted decimal form reads back as the same address.
pub proof fn lemma_ipv4_text_roundtrip(ip: Ipv4)
    ensures
        parsed_ipv4(ipv4_text(ip)) == Some(ip),
{
    lemma_dec_octet(ip.a as nat);
    lemma_dec_octet(ip.b as nat);
    lemma_dec_octet(ip.c as nat);
    lemma_dec_octet(ip.d as nat);
    assert("."@ == seq!['.']) by {
        reveal_strlit(".");
    }
    lemma_dotted(dec(ip.a as nat), dec(ip.b as nat), dec(ip.c as nat), dec(ip.d as nat));
}

/// Reads the octet `s[from..to]`.
fn parse_octet(s: &str, from: usize, to: usize) -> (r: Option<u8>)
    requires
        from <= to <= s@.len(),
    ensures
        r matches Some(v) ==> octet_ok(s@.subrange(from as int, to as int)) && v == digits_value(
            s@.subrange(from as int, to as int),
        ),
        r is None ==> !octet_ok(s@.subrange(from as int, to as int)),
{
    let ghost p = s@.subrange(from as int, to as int);
    if to - from < 1 || to - from > 3 {
        return None;
    }
    if to - from > 1 && s.get_char(from) == '0' {
        return None;
    }
    let mut v: u64 = 0;
    let mut i = from;
    while i < to
        invariant
            from <= i <= to <= s@.len(),
            to - from <= 3,
            p == s@.subrange(from as int, to as int),
            all_digits(p.take(i - from)),
            v == digits_value(p.take(i - from)),
            v < 1000,
        decreases to - i,
    {
        let c = s.get_char(i);
        let ghost k: int = i - from;
        assert(p[k] == c);
        if !('0' <= c && c <= '9') {
            assert(!is_digit(p[k]));
            return None;
        }
        assert(p.take(k + 1).drop_last() =~= p.take(k));
        proof {
            if v >= 100 {
                assert(k >= 3) by {
                    if k < 3 {
                        lemma_digits_value_bound(p.take(k));
                        assert(pow10(0) == 1);
                        assert(pow10(1) == 10);
                        assert(pow10(2) == 100);
                    }
                }
            }
        }
        v = v * 10 + (c as u32 - 48) as u64;
        assert(all_digits(p.take(k + 1)));
        i = i + 1;
    }
    assert(p.take(to - from) =~= p);
    if v > 255 {
        None
    } else {
        Some(v as u8)
    }
}

impl Ipv4 {
    /// Reads an address in dotted decimal form, as `Ipv4Addr::from_str` does.
    #[verifier::rlimit(50)]
    pub fn parse(s: &str) -> (r: Option<Ipv4>)
        ensures
            r == parsed_ipv4(s@),
    {
        let n = s.unicode_len();
        proof {
            lemma_find_char(s@, '.');
        }
        let k1 = match find_char_in(s, '.', 0, n) {
            Some(k) => k,
            None => {
                assert(s@.subrange(0, n as int) =~= s@);
                return None;
            },
        };
        assert(s@.subrange(0, n as int) =~= s@);
        let ghost r1 = s@.skip(k1 + 1int);
        let b1 = k1 + 1;
        assert(s@.subrange(b1 as int, n as int) =~= r1);
        proof {
            lemma_find_char(r1, '.');
        }
        let k2 = match find_char_in(s, '.', b1, n) {
            Some(k) => k,
            None => {
                return None;
            },
        };
        let ghost r2 = r1.skip(k2 + 1int);
        let b2 = b1 + k2 + 1;
        assert(s@.subrange(b2 as int, n as int) =~= r2);
        proof {
            lemma_find_char(r2, '.');
        }
        let k3 = match find_char_in(s, '.', b2, n) {
            Some(k) => k,
            None => {
                return None;
            },
        };
        let ghost r3 = r2.skip(k3 + 1int);
        let b3 = b2 + k3 + 1;
        assert(s@.subrange(b3 as int, n as int) =~= r3);
        if find_char_in(s, '.', b3, n).is_some() {
            return None;
        }
        assert(s@.subrange(0, k1 as int) =~= s@.take(k1 as int));
        assert(s@.subrange(b1 as int, (b1 + k2) as int) =~= r1.take(k2 as int));
        assert(s@.subrange(b2 as int, (b2 + k3) as int) =~= r2.take(k3 as int));
        let a = parse_octet(s, 0, k1);
        let b = parse_octet(s, b1, b1 + k2);
        let c = parse_octet(s, b2, b2 + k3);
        let d = parse_octet(s, b3, n);
        match (a, b, c, d) {
            (Some(a), Some(b), Some(c), Some(d)) => Some(Ipv4 { a, b, c, d }),
            _ => None,
        }
    }

    /// The dotted decimal form of the address.
    pub fn to_text(&self) -> (r: String)
        ensures
            r@ == ipv4_text(*self),
    {
        let mut s = to_decimal(self.a as u64);
        s.append(".");
        s.append(to_decimal(self.b as u64).as_str());
        s.append(".");
        s.append(to_decimal(self.c as u64).as_str());
        s.append(".");
        s.append(to_decimal(self.d as u64).as_str());
        s
    }
}

/// A VNC server on the guest's screen, listening on `host`, with an optional password.
#[derive(Debug, Clone)]
pub struct VNC {
    pub host: Ipv4,
    pub password: Option<String>,
}

/// The QEMU arguments that open the VNC server `v`: the first free display
/// from 0 to 99, with password authentication when a password is set.
pub open spec fn vnc_args(v: VNC) -> Seq<Seq<char>> {
    seq![
        "-vnc"@,
        ipv4_text(v.host) + ":0,to=99"@ + if v.password is Some {
            ",password=on"@
        } else {
            Seq::empty()
        },
    ]
}

impl VNC {
    /// The QEMU arguments that open this VNC server.
    pub fn to_qemu_arg(&self) -> (r: Vec<String>)
        ensures
            views(r@) == vnc_args(*self),
    {
        let mut arg = self.host.to_text();
        arg.append(":0,to=99");
        if self.password.is_some() {
            arg.append(",password=on");
        }
        let mut v: Vec<String> = Vec::new();
        v.push(String::from_str("-vnc"));
        v.push(arg);
        assert(views(v@) =~= vnc_args(*self));
        v
    }
}

/// The form section that has the focus.
#[derive(Debug, Clone, Copy, PartialEq, Eq, Structural)]
pub enum Section {
    Enable,
    Host,
    Password,
}

/// The form that configures VNC access.
#[derive(Debug, Clone)]
pub struct VncBuilder {
    pub section: Section,
    pub enabled: bool,
    pub host: String,
    pub host_cursor: usize,
    pub host_error: Option<String>,
    pub password: String,
    pub password_cursor: usize,
    pub password_error: Option<String>,
}

/// A password longer than 8 bytes is refused.
pub open spec fn password_too_long(p: Seq<char>) -> bool {
    encode_utf8(p).len() as usize > 8
}

/// `n` is the VNC form `o` after `key`, and `to_field` says whether the key
/// belongs to the host or password field.
pub open spec fn vnc_form_after(o: VncBuilder, n: VncBuilder, key: Key, to_field: bool) -> bool {
    &&& n.section == match o.section {
                Section::Enable => if is_down(key) {
                    Section::Host
                } else if is_up(key) {
                    Section::Password
                } else {
                    Section::Enable
                },
                Section::Host => if key == Key::Down {
                    Section::Password
                } else if key == Key::Up {
                    Section::Enable
                } else {
                    Section::Host
                },
                Section::Password => if key == Key::Down {
                    Section::Enable
                } else if key == Key::Up {
                    Section::Host
                } else {
                    Section::Password
                },
            }
    &&& n.enabled == (o.enabled != (o.section == Section::Enable
                && !is_down(key) && !is_up(key) && (is_left(key) || is_right(key))))
    &&& to_field == (o.section != Section::Enable && key != Key::Down && key
                != Key::Up)
    &&& if to_field && o.section == Section::Host {
        typed(o.host, o.host_cursor, n.host, n.host_cursor, key)
    } else {
        untouched(o.host, o.host_cursor, n.host, n.host_cursor)
    }
    &&& if to_field && o.section == Section::Password {
        typed(o.password, o.password_cursor, n.password, n.password_cursor, key)
    } else {
        untouched(o.password, o.password_cursor, n.password, n.password_cursor)
    }
}

/// `n` is the VNC form `o` after its check, and `valid` is the check's
/// outcome.
pub open spec fn vnc_validated(o: VncBuilder, n: VncBuilder, valid: bool) -> bool {
    &&& valid == (!(o.host@.len() > 0 && parsed_ipv4(o.host@) is None)
                && !password_too_long(o.password@))
    &&& opt_view(n.host_error) == if o.host@.len() > 0 && parsed_ipv4(
                o.host@,
            ) is None {
                Some("Invalid host addresse"@)
            } else {
                None
            }
    &&& opt_view(n.password_error) == if password_too_long(o.password@) {
                Some("The password is limited to 8 characters"@)
            } else {
                None
            }
    &&& n.section == o.section
    &&& n.enabled == o.enabled
    &&& n.host == o.host
    &&& n.host_cursor == o.host_cursor
    &&& n.password == o.password
    &&& n.password_cursor == o.password_cursor
}

impl VncBuilder {
    /// VNC enabled on 127.0.0.1, without a password.
    pub fn default() -> (r: Self)
        ensures
            r.section == Section::Enable,
            r.enabled,
            r.host@ == "127.0.0.1"@,
            r.host_cursor == 9,
            r.password@ == Seq::<char>::empty(),
            r.password_cursor == 0,
            r.host_error is None,
            r.password_error is None,
    {
        VncBuilder {
            section: Section::Enable,
            enabled: true,
            host: String::from_str("127.0.0.1"),
            host_cursor: 9,
            host_error: None,
            password: String::new(),
            password_cursor: 0,
            password_error: None,
        }
    }

    /// The form for an existing setting.
    pub fn new(enabled: bool, host: Ipv4, password: Option<String>) -> (r: Self)
        ensures
            r.section == Section::Enable,
            r.enabled == enabled,
            r.host@ == ipv4_text(host),
            r.password@ == match password {
                Some(p) => p@,
                None => Seq::<char>::empty(),
            },
            r.host_cursor == r.host@.len(),
            r.password_cursor == r.password@.len(),
            r.host_error is None,
            r.password_error is None,
    {
        let host = host.to_text();
        let host_cursor = end_of(&host);
        let password = match password {
            Some(p) => p,
            None => String::new(),
        };
        let password_cursor = end_of(&password);
        VncBuilder {
            section: Section::Enable,
            enabled,
            host,
            host_cursor,
            host_error: None,
            password,
            password_cursor,
            password_error: None,
        }
    }

    /// The typed password, if one was typed.
    pub fn passowrd(&self) -> (r: Option<String>)
        ensures
            match r {
                Some(p) => self.password@.len() > 0 && p@ == self.password@,
                None => self.password@.len() == 0,
            },
    {
        if self.password.as_str().is_empty() {
            None
        } else {
            Some(self.password.clone())
        }
    }

    /// Whether VNC access is enabled.
    pub fn is_enabled(&self) -> (r: bool)
        ensures
            r == self.enabled,
    {
        self.enabled
    }

    /// Whether a password was typed.
    pub fn is_authentication_enabled(&self) -> (r: bool)
        ensures
            r == (self.password@.len() > 0),
    {
        !self.password.as_str().is_empty()
    }

    /// The VNC server the form describes, when enabled.
    pub fn build(&self) -> (r: Option<VNC>)
        requires
            self.enabled ==> parsed_ipv4(self.host@) is Some,
        ensures
            match r {
                Some(v) => self.enabled && v.host == parsed_ipv4(self.host@)->0 && match v.password {
                    Some(p) => self.password@.len() > 0 && p@ == self.password@,
                    None => self.password@.len() == 0,
                },
                None => !self.enabled,
            },
    {
        if self.enabled {
            let host = Ipv4::parse(self.host.as_str()).unwrap();
            Some(VNC { host, password: self.passowrd() })
        } else {
            None
        }
    }

    /// Checks the host and the password and records their errors; true when
    /// there is none. An empty host is not checked.
    pub fn validate(&mut self) -> (valid: bool)
        ensures
            vnc_validated(*old(self), *final(self), valid),
    {
        let mut valid = true;
        self.host_error = None;
        self.password_error = None;
        if !self.host.as_str().is_empty() && Ipv4::parse(self.host.as_str()).is_none() {
            self.host_error = Some(String::from_str("Invalid host addresse"));
            valid = false;
        }
        if self.password.as_str().len() > 8 {
            self.password_error = Some(String::from_str("The password is limited to 8 characters"));
            valid = false;
        }
        valid
    }

    /// Reacts to a key: moves the focus or flips the enabled switch; other
    /// keys edit the focused host or password field. Returns true when the
    /// key went to one of them.
    pub fn handle_key_events(&mut self, key: Key) -> (to_field: bool)
        ensures
            vnc_form_after(*old(self), *final(self), key, to_field),
    {
        match self.section {
            Section::Enable => {
                if key.down() {
                    self.section = Section::Host;
                } else if key.up() {
                    self.section = Section::Password;
                } else if key.left() || key.right() {
                    self.enabled = !self.enabled;
                }
                false
            },
            Section::Host => match key {
                Key::Down => {
                    self.section = Section::Password;
                    false
                },
                Key::Up => {
                    self.section = Section::Enable;
                    false
                },
                _ => {
                    edit_field(&mut self.host, &mut self.host_cursor, key);
                    true
                },
            },
            Section::Password => match key {
                Key::Down => {
                    self.section = Section::Enable;
                    false
                },
                Key::Up => {
                    self.section = Section::Host;
                    false
                },
                _ => {
                    edit_field(&mut self.password, &mut self.password_cursor, key);
                    true
                },
            },
        }
    }
}

} // verus!
