use vstd::prelude::*;

verus! {

pub open spec fn is_digit(c: char) -> bool {
    '0' <= c && c <= '9'
}

pub open spec fn digit_value(c: char) -> int {
    (c as u32) - ('0' as u32)
}

/// The number written by a run of decimal digits.
pub open spec fn decimal_value(s: Seq<char>) -> int
    decreases s.len(),
{
    if s.len() == 0 {
        0
    } else {
        decimal_value(s.drop_last()) * 10 + digit_value(s.last())
    }
}

/// One component of a dotted-quad address: one to three digits, no leading zero,
/// at most 255.
pub open spec fn is_octet(s: Seq<char>) -> bool {
    &&& 1 <= s.len() <= 3
    &&& forall|i: int| 0 <= i < s.len() ==> is_digit(#[trigger] s[i])
    &&& (s.len() > 1 ==> s[0] != '0')
    &&& decimal_value(s) <= 255
}

/// The pieces of `s` between dots, in order (a string without a dot is one piece).
pub open spec fn dot_fields(s: Seq<char>) -> Seq<Seq<char>>
    decreases s.len(),
{
    if s.len() == 0 {
        seq![Seq::empty()]
    } else {
        let f = dot_fields(s.drop_last());
        if s.last() == '.' {
            f.push(Seq::empty())
        } else {
            f.update(f.len() - 1, f.last().push(s.last()))
        }
    }
}

/// `s` is an IPv4 address in dotted-quad form, such as `192.168.0.10`.
pub open spec fn is_ipv4(s: Seq<char>) -> bool {
    let f = dot_fields(s);
    &&& f.len() == 4
    &&& forall|i: int| 0 <= i < 4 ==> is_octet(#[trigger] f[i])
}

proof fn lemma_dot_fields_nonempty(s: Seq<char>)
    ensures
        dot_fields(s).len() >= 1,
    decreases s.len(),
{
    if s.len() > 0 {
        lemma_dot_fields_nonempty(s.drop_last());
    }
}

proof fn lemma_dot_fields_step(s: Seq<char>, i: int)
    requires
        0 <= i < s.len(),
    ensures
        dot_fields(s.take(i + 1)) == (if s[i] == '.' {
            dot_fields(s.take(i)).push(Seq::empty())
        } else {
            let f = dot_fields(s.take(i));
            f.update(f.len() - 1, f.last().push(s[i]))
        }),
{
    assert(s.take(i + 1).drop_last() =~= s.take(i));
}

/// Whether `s` is an IPv4 address in dotted-quad form.
pub fn is_ipv4_address(s: &str) -> (r: bool)
    ensures
        r == is_ipv4(s@),
{
    let len = s.unicode_len();
    let mut i: usize = 0;
    // pieces seen so far, counted up to five
    let mut fields: usize = 1;
    // every piece before the current one is an octet
    let mut done_ok = true;
    let mut cur_len: usize = 0;
    let mut cur_digits = true;
    let mut cur_lead_zero = false;
    let mut cur_val: u32 = 0;
    proof {
        assert(s@.take(0) =~= Seq::<char>::empty());
    }
    while i < len
        invariant
            len == s@.len(),
            i <= len,
            dot_fields(s@.take(i as int)).len() >= 1,
            fields == (if dot_fields(s@.take(i as int)).len() < 5 {
                dot_fields(s@.take(i as int)).len()
            } else {
                5
            }),
            done_ok == (forall|j: int|
                0 <= j < dot_fields(s@.take(i as int)).len() - 1 ==> is_octet(
                    #[trigger] dot_fields(s@.take(i as int))[j],
                )),
            cur_len == dot_fields(s@.take(i as int)).last().len(),
            cur_len <= i,
            cur_digits == (forall|j: int|
                0 <= j < cur_len ==> is_digit(#[trigger] dot_fields(s@.take(i as int)).last()[j])),
            cur_lead_zero == (cur_len > 0 && dot_fields(s@.take(i as int)).last()[0] == '0'),
            cur_digits && cur_len <= 3 ==> cur_val == decimal_value(
                dot_fields(s@.take(i as int)).last(),
            ),
            cur_len == 0 ==> cur_val == 0,
            cur_len == 1 ==> cur_val < 10,
            cur_len == 2 ==> cur_val < 100,
            cur_val < 1000,
        decreases len - i,
    {
        let ch = s.get_char(i);
        let ghost f = dot_fields(s@.take(i as int));
        proof {
            lemma_dot_fields_step(s@, i as int);
            lemma_dot_fields_nonempty(s@.take(i as int));
        }
        if ch == '.' {
            let ok = octet_ok(cur_len, cur_digits, cur_lead_zero, cur_val);
            assert(ok == is_octet(f.last()));
            done_ok = done_ok && ok;
            if fields < 5 {
                fields = fields + 1;
            }
            cur_len = 0;
            cur_digits = true;
            cur_lead_zero = false;
            cur_val = 0;
            proof {
                let g = dot_fields(s@.take(i + 1));
                assert(g == f.push(Seq::empty()));
                assert(g.last() =~= Seq::<char>::empty());
                assert(done_ok == (forall|j: int| 0 <= j < g.len() - 1 ==> is_octet(#[trigger] g[j])))
                    by {
                    assert(forall|j: int| 0 <= j < f.len() - 1 ==> g[j] == f[j]);
                    assert(g[f.len() - 1] == f.last());
                }
            }
        } else {
            let is_dig = '0' <= ch && ch <= '9';
            if cur_len == 0 {
                cur_lead_zero = ch == '0';
            }
            if is_dig && cur_digits && cur_len < 3 {
                cur_val = cur_val * 10 + ((ch as u32) - ('0' as u32));
            } else {
                cur_val = 0;
            }
            cur_digits = cur_digits && is_dig;
            cur_len = cur_len + 1;
            proof {
                let g = dot_fields(s@.take(i + 1));
                let last = f.last().push(ch);
                assert(g == f.update(f.len() - 1, last));
                assert(g.last() == last);
                assert(last.drop_last() =~= f.last());
                assert(forall|j: int| 0 <= j < g.len() - 1 ==> g[j] == f[j]);
                assert(cur_digits == (forall|j: int| 0 <= j < cur_len ==> is_digit(#[trigger] last[j])))
                    by {
                    assert(forall|j: int| 0 <= j < cur_len - 1 ==> last[j] == f.last()[j]);
                    assert(last[cur_len - 1] == ch);
                    if cur_digits {
                        assert forall|j: int| 0 <= j < cur_len implies is_digit(
                            #[trigger] last[j],
                        ) by {
                            if j < cur_len - 1 {
                                assert(is_digit(f.last()[j]));
                            }
                        }
                    } else if is_dig {
                        let k = choose|k: int| 0 <= k < cur_len - 1 && !is_digit(#[trigger] f.last()[k]);
                        assert(!is_digit(last[k]));
                    }
                }
            }
        }
        i = i + 1;
    }
    proof {
        assert(s@.take(len as int) =~= s@);
    }
    let ok = octet_ok(cur_len, cur_digits, cur_lead_zero, cur_val);
    let r = fields == 4 && done_ok && ok;
    proof {
        let f = dot_fields(s@);
        if f.len() == 4 {
            assert(r == (forall|j: int| 0 <= j < 4 ==> is_octet(#[trigger] f[j]))) by {
                assert(f[3] == f.last());
            }
        }
    }
    r
}

/// Whether the piece described by these facts is an octet.
fn octet_ok(len: usize, digits: bool, lead_zero: bool, val: u32) -> (r: bool)
    ensures
        r == (1 <= len <= 3 && digits && !(len > 1 && lead_zero) && val <= 255),
{
    1 <= len && len <= 3 && digits && !(len > 1 && lead_zero) && val <= 255
}

} // verus!
