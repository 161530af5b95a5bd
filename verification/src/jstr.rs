//! Escaping of diagnostic text inside the wire format: the escaped form of
//! a string, its inverse, and the proof that unescaping undoes escaping.
use vstd::prelude::*;
use crate::digits::digit_char;
use crate::digits::digit_val;
use crate::digits::is_digit;
use crate::ext::push_char;
use vstd::string::StrSliceExecFns;
use vstd::string::StringExecFns;

verus! {

pub open spec fn hex_char(d: nat) -> char {
    if d < 10 {
        digit_char(d)
    } else if d == 10 {
        'a'
    } else if d == 11 {
        'b'
    } else if d == 12 {
        'c'
    } else if d == 13 {
        'd'
    } else if d == 14 {
        'e'
    } else {
        'f'
    }
}

pub open spec fn is_hex(c: char) -> bool {
    is_digit(c) || (97 <= c as u32 <= 102)
}

pub open spec fn hex_val(c: char) -> nat {
    if is_digit(c) {
        digit_val(c)
    } else {
        (c as u32 - 87) as nat
    }
}

/// The escaped form of one character: quote and backslash escaped, the
/// named control characters short-escaped, other control characters
/// hex-escaped, everything else written as itself.
pub open spec fn esc_char(c: char) -> Seq<char> {
    if c == '"' {
        seq!['\\', '"']
    } else if c == '\\' {
        seq!['\\', '\\']
    } else if c == '\u{8}' {
        seq!['\\', 'b']
    } else if c == '\u{9}' {
        seq!['\\', 't']
    } else if c == '\u{a}' {
        seq!['\\', 'n']
    } else if c == '\u{c}' {
        seq!['\\', 'f']
    } else if c == '\u{d}' {
        seq!['\\', 'r']
    } else if (c as u32) < 32 {
        seq!['\\', 'u', '0', '0', hex_char((c as u32 / 16) as nat), hex_char((c as u32 % 16) as nat)]
    } else {
        seq![c]
    }
}

/// The escaped form of a text.
pub open spec fn esc(s: Seq<char>) -> Seq<char>
    decreases s.len(),
{
    if s.len() == 0 {
        Seq::empty()
    } else {
        esc_char(s[0]) + esc(s.drop_first())
    }
}

pub open spec fn short_unesc(c: char) -> Option<char> {
    if c == '"' {
        Some('"')
    } else if c == '\\' {
        Some('\\')
    } else if c == '/' {
        Some('/')
    } else if c == 'b' {
        Some('\u{8}')
    } else if c == 't' {
        Some('\u{9}')
    } else if c == 'n' {
        Some('\u{a}')
    } else if c == 'f' {
        Some('\u{c}')
    } else if c == 'r' {
        Some('\u{d}')
    } else {
        None
    }
}

pub open spec fn cons_char(c: char, r: Option<Seq<char>>) -> Option<Seq<char>> {
    match r {
        Some(t) => Some(seq![c] + t),
        None => None,
    }
}

/// The inverse of `esc`: reads an escaped text back; `None` on a stray
/// backslash, an unknown escape, or a raw quote or control character.
pub open spec fn unesc(t: Seq<char>) -> Option<Seq<char>>
    decreases t.len(),
{
    if t.len() == 0 {
        Some(Seq::empty())
    } else if t[0] == '\\' {
        if t.len() < 2 {
            None
        } else if t[1] == 'u' {
            if t.len() >= 6 && t[2] == '0' && t[3] == '0' && is_hex(t[4]) && is_hex(t[5]) && hex_val(
                t[4],
            ) * 16 + hex_val(t[5]) < 32 {
                cons_char(
                    (((hex_val(t[4]) * 16 + hex_val(t[5])) as u32) as char),
                    unesc(t.subrange(6, t.len() as int)),
                )
            } else {
                None
            }
        } else {
            match short_unesc(t[1]) {
                Some(c) => cons_char(c, unesc(t.subrange(2, t.len() as int))),
                None => None,
            }
        }
    } else if t[0] == '"' || (t[0] as u32) < 32 {
        None
    } else {
        cons_char(t[0], unesc(t.drop_first()))
    }
}

pub proof fn lemma_hex_char_val(d: nat)
    requires
        d < 16,
    ensures
        is_hex(hex_char(d)),
        hex_val(hex_char(d)) == d,
{
}

/// Unescaping undoes escaping, on every text.
pub proof fn lemma_unesc_esc(s: Seq<char>)
    ensures
        unesc(esc(s)) == Some(s),
    decreases s.len(),
{
    if s.len() == 0 {
    } else {
        lemma_unesc_esc(s.drop_first());
        let c = s[0];
        let rest = s.drop_first();
        let ec = esc_char(c);
        let t = esc(s);
        assert(t == ec + esc(rest));
        assert(seq![c] + rest =~= s);
        if c == '"' || c == '\\' || c == '\u{8}' || c == '\u{9}' || c == '\u{a}' || c == '\u{c}'
            || c == '\u{d}' {
            assert(t.len() >= 2);
            assert(t[0] == '\\');
            assert(t[1] == ec[1]);
            assert(t.subrange(2, t.len() as int) =~= esc(rest));
            assert(short_unesc(ec[1]) == Some(c));
            assert(unesc(t) == cons_char(c, unesc(esc(rest))));
        } else if (c as u32) < 32 {
            let v = c as u32;
            let h1 = hex_char((v / 16) as nat);
            let h0 = hex_char((v % 16) as nat);
            lemma_hex_char_val((v / 16) as nat);
            lemma_hex_char_val((v % 16) as nat);
            assert(t.len() >= 6);
            assert(t[0] == '\\' && t[1] == 'u' && t[2] == '0' && t[3] == '0');
            assert(t[4] == h1 && t[5] == h0);
            vstd::arithmetic::div_mod::lemma_fundamental_div_mod(v as int, 16);
            assert(hex_val(h1) * 16 + hex_val(h0) == v);
            assert((v as char) == c) by {
                vstd::utf8::char_u32_cast(c, v);
            }
            assert(t.subrange(6, t.len() as int) =~= esc(rest));
            assert(unesc(t) == cons_char(c, unesc(esc(rest))));
        } else {
            assert(t[0] == c);
            assert(t.drop_first() =~= esc(rest));
            assert(unesc(t) == cons_char(c, unesc(esc(rest))));
        }
        assert(unesc(t) == Some(seq![c] + rest));
    }
}

/// Escaping one more character extends the escaped text at its end.
pub proof fn lemma_esc_snoc(a: Seq<char>, c: char)
    ensures
        esc(a.push(c)) == esc(a) + esc_char(c),
    decreases a.len(),
{
    if a.len() == 0 {
        assert(a.push(c)[0] == c);
        assert(a.push(c).drop_first() =~= Seq::<char>::empty());
        assert(esc(a.push(c)) == esc_char(a.push(c)[0]) + esc(a.push(c).drop_first()));
        assert(esc(a.push(c)) =~= esc_char(c));
        assert(esc(a) + esc_char(c) =~= esc_char(c));
    } else {
        lemma_esc_snoc(a.drop_first(), c);
        assert(a.push(c)[0] == a[0]);
        assert(a.push(c).drop_first() =~= a.drop_first().push(c));
        assert(esc(a.push(c)) == esc_char(a[0]) + esc(a.drop_first().push(c)));
        assert(esc(a.push(c)) =~= esc(a) + esc_char(c));
    }
}

fn hex_char_x(d: u32) -> (r: char)
    requires
        d < 16,
    ensures
        r == hex_char(d as nat),
{
    if d == 0 {
        '0'
    } else if d == 1 {
        '1'
    } else if d == 2 {
        '2'
    } else if d == 3 {
        '3'
    } else if d == 4 {
        '4'
    } else if d == 5 {
        '5'
    } else if d == 6 {
        '6'
    } else if d == 7 {
        '7'
    } else if d == 8 {
        '8'
    } else if d == 9 {
        '9'
    } else if d == 10 {
        'a'
    } else if d == 11 {
        'b'
    } else if d == 12 {
        'c'
    } else if d == 13 {
        'd'
    } else if d == 14 {
        'e'
    } else {
        'f'
    }
}

/// Appends the escaped form of `s`.
pub fn push_escaped(out: &mut String, s: &str)
    ensures
        final(out)@ == old(out)@ + esc(s@),
{
    let n: usize = s.unicode_len();
    let mut i: usize = 0;
    proof {
        assert(s@.subrange(0, 0) =~= Seq::<char>::empty());
        assert(old(out)@ + esc(s@.subrange(0, 0)) =~= old(out)@);
    }
    while i < n
        invariant
            n == s@.len(),
            i <= n,
            out@ == old(out)@ + esc(s@.subrange(0, i as int)),
        decreases n - i,
    {
        let c = s.get_char(i);
        proof {
            assert(s@.subrange(0, i as int).push(c) =~= s@.subrange(0, i as int + 1));
            lemma_esc_snoc(s@.subrange(0, i as int), c);
        }
        if c == '"' {
            out.append("\\\"");
            proof {
                reveal_strlit("\\\"");
                assert("\\\""@ =~= esc_char(c));
            }
        } else if c == '\\' {
            out.append("\\\\");
            proof {
                reveal_strlit("\\\\");
                assert("\\\\"@ =~= esc_char(c));
            }
        } else if c == '\u{8}' {
            out.append("\\b");
            proof {
                reveal_strlit("\\b");
                assert("\\b"@ =~= esc_char(c));
            }
        } else if c == '\u{9}' {
            out.append("\\t");
            proof {
                reveal_strlit("\\t");
                assert("\\t"@ =~= esc_char(c));
            }
        } else if c == '\u{a}' {
            out.append("\\n");
            proof {
                reveal_strlit("\\n");
                assert("\\n"@ =~= esc_char(c));
            }
        } else if c == '\u{c}' {
            out.append("\\f");
            proof {
                reveal_strlit("\\f");
                assert("\\f"@ =~= esc_char(c));
            }
        } else if c == '\u{d}' {
            out.append("\\r");
            proof {
                reveal_strlit("\\r");
                assert("\\r"@ =~= esc_char(c));
            }
        } else if (c as u32) < 32 {
            let v: u32 = c as u32;
            out.append("\\u00");
            push_char(out, hex_char_x(v / 16));
            push_char(out, hex_char_x(v % 16));
            proof {
                reveal_strlit("\\u00");
                assert("\\u00"@ + seq![hex_char((v / 16) as nat)] + seq![
                    hex_char((v % 16) as nat),
                ] =~= esc_char(c));
                assert(out@ =~= old(out)@ + esc(s@.subrange(0, i as int)) + esc_char(c));
            }
        } else {
            push_char(out, c);
            proof {
                assert(seq![c] =~= esc_char(c));
                assert(out@ =~= old(out)@ + esc(s@.subrange(0, i as int)) + esc_char(c));
            }
        }
        proof {
            assert(out@ =~= old(out)@ + esc(s@.subrange(0, i as int + 1)));
        }
        i = i + 1;
    }
    proof {
        assert(s@.subrange(0, n as int) =~= s@);
    }
}

fn short_unesc_x(c: char) -> (r: Option<char>)
    ensures
        r == short_unesc(c),
{
    if c == '"' {
        Some('"')
    } else if c == '\\' {
        Some('\\')
    } else if c == '/' {
        Some('/')
    } else if c == 'b' {
        Some('\u{8}')
    } else if c == 't' {
        Some('\u{9}')
    } else if c == 'n' {
        Some('\u{a}')
    } else if c == 'f' {
        Some('\u{c}')
    } else if c == 'r' {
        Some('\u{d}')
    } else {
        None
    }
}

pub open spec fn opt_concat(p: Seq<char>, r: Option<Seq<char>>) -> Option<Seq<char>> {
    match r {
        Some(t) => Some(p + t),
        None => None,
    }
}

proof fn lemma_opt_concat_cons(p: Seq<char>, c: char, r: Option<Seq<char>>)
    ensures
        opt_concat(p, cons_char(c, r)) == opt_concat(p.push(c), r),
{
    if r is Some {
        assert(p + (seq![c] + r.unwrap()) =~= p.push(c) + r.unwrap());
    }
}

fn is_hex_x(c: char) -> (r: bool)
    ensures
        r == is_hex(c),
{
    let v: u32 = c as u32;
    (48 <= v && v <= 57) || (97 <= v && v <= 102)
}

fn hex_val_x(c: char) -> (r: u32)
    requires
        is_hex(c),
    ensures
        r as nat == hex_val(c),
{
    let v: u32 = c as u32;
    if v <= 57 {
        v - 48
    } else {
        v - 87
    }
}

/// Reads the escaped text `t[lo..hi]` back; `None` exactly where `unesc`
/// rejects it.
pub fn unescape_range(t: &Vec<char>, lo: usize, hi: usize) -> (r: Option<String>)
    requires
        lo <= hi <= t.len(),
    ensures
        match r {
            Some(s) => unesc(t@.subrange(lo as int, hi as int)) == Some(s@),
            None => unesc(t@.subrange(lo as int, hi as int)) == None::<Seq<char>>,
        },
{
    let ghost whole = t@.subrange(lo as int, hi as int);
    let mut out = String::new();
    let mut pos: usize = lo;
    proof {
        if unesc(whole) is Some {
            assert(Seq::<char>::empty() + unesc(whole).unwrap() =~= unesc(whole).unwrap());
        }
    }
    while pos < hi
        invariant
            lo <= pos <= hi <= t.len(),
            whole == t@.subrange(lo as int, hi as int),
            unesc(whole) == opt_concat(out@, unesc(t@.subrange(pos as int, hi as int))),
        decreases hi - pos,
    {
        let ghost suf = t@.subrange(pos as int, hi as int);
        let c = t[pos];
        assert(suf[0] == c);
        if c == '\\' {
            if hi - pos < 2 {
                assert(unesc(suf) == None::<Seq<char>>);
                return None;
            }
            let c2 = t[pos + 1];
            assert(suf[1] == c2);
            if c2 == 'u' {
                if hi - pos < 6 {
                    assert(unesc(suf) == None::<Seq<char>>);
                    return None;
                }
                let z1 = t[pos + 2];
                let z2 = t[pos + 3];
                let h1 = t[pos + 4];
                let h0 = t[pos + 5];
                assert(suf[2] == z1 && suf[3] == z2 && suf[4] == h1 && suf[5] == h0);
                if !(z1 == '0' && z2 == '0' && is_hex_x(h1) && is_hex_x(h0)) {
                    assert(unesc(suf) == None::<Seq<char>>);
                    return None;
                }
                let v: u32 = hex_val_x(h1) * 16 + hex_val_x(h0);
                if !(v < 32) {
                    assert(unesc(suf) == None::<Seq<char>>);
                    return None;
                }
                let cc = (v as u8) as char;
                proof {
                    vstd::utf8::char_u32_cast(cc, cc as u32);
                    assert(cc == ((v as u32) as char));
                    assert(unesc(suf) == cons_char(cc, unesc(suf.subrange(6, suf.len() as int))));
                    assert(suf.subrange(6, suf.len() as int) =~= t@.subrange(
                        pos as int + 6,
                        hi as int,
                    ));
                    lemma_opt_concat_cons(out@, cc, unesc(t@.subrange(pos as int + 6, hi as int)));
                }
                push_char(&mut out, cc);
                pos = pos + 6;
            } else {
                match short_unesc_x(c2) {
                    Some(cc) => {
                        proof {
                            assert(unesc(suf) == cons_char(
                                cc,
                                unesc(suf.subrange(2, suf.len() as int)),
                            ));
                            assert(suf.subrange(2, suf.len() as int) =~= t@.subrange(
                                pos as int + 2,
                                hi as int,
                            ));
                            lemma_opt_concat_cons(
                                out@,
                                cc,
                                unesc(t@.subrange(pos as int + 2, hi as int)),
                            );
                        }
                        push_char(&mut out, cc);
                        pos = pos + 2;
                    },
                    None => {
                        assert(unesc(suf) == None::<Seq<char>>);
                        return None;
                    },
                }
            }
        } else if c == '"' || (c as u32) < 32 {
            assert(unesc(suf) == None::<Seq<char>>);
            return None;
        } else {
            proof {
                assert(unesc(suf) == cons_char(c, unesc(suf.drop_first())));
                assert(suf.drop_first() =~= t@.subrange(pos as int + 1, hi as int));
                lemma_opt_concat_cons(out@, c, unesc(t@.subrange(pos as int + 1, hi as int)));
            }
            push_char(&mut out, c);
            pos = pos + 1;
        }
    }
    proof {
        assert(t@.subrange(pos as int, hi as int) =~= Seq::<char>::empty());
        assert(unesc(Seq::<char>::empty()) == Some(Seq::<char>::empty()));
        assert(out@ + Seq::<char>::empty() =~= out@);
    }
    Some(out)
}

} // verus!
