//! Build numbers: 4-part version values and their dotted textual form.
use vstd::prelude::*;
use vstd::string::StrSliceExecFns;

use crate::errors::Error;

verus! {

/// A 4-part version number which identifies a particular build of Windows,
/// written `major.minor.build.revision`, as in `10.0.17763.245`.
#[derive(Copy, Clone, Debug, PartialEq, Eq, Structural, Hash)]
pub struct WindowsBuild {
    pub major: u32,
    pub minor: u32,
    pub build: u32,
    pub revision: u32,
}

/// An ASCII decimal digit.
pub open spec fn is_decimal_digit(c: char) -> bool {
    48 <= c as int && c as int <= 57
}

/// Numeric value of one decimal digit.
pub open spec fn digit_value(c: char) -> int {
    c as int - 48
}

/// A nonempty run of decimal digits.
pub open spec fn is_digit_field(s: Seq<char>) -> bool {
    s.len() > 0 && forall|i: int| 0 <= i < s.len() ==> is_decimal_digit(#[trigger] s[i])
}

/// Value of a digit run read as a decimal numeral.
pub open spec fn digits_value(s: Seq<char>) -> int
    decreases s.len(),
{
    if s.len() == 0 {
        0
    } else {
        10 * digits_value(s.drop_last()) + digit_value(s.last())
    }
}

/// The fields obtained by splitting `s` at every `'.'`, as `str::split('.')`
/// yields them: the empty string has one (empty) field, and every dot closes
/// the field before it.
pub open spec fn split_dots(s: Seq<char>) -> Seq<Seq<char>>
    decreases s.len(),
{
    if s.len() == 0 {
        seq![Seq::<char>::empty()]
    } else if s[0] == '.' {
        seq![Seq::<char>::empty()] + split_dots(s.skip(1))
    } else {
        let rest = split_dots(s.skip(1));
        seq![seq![s[0]] + rest[0]] + rest.skip(1)
    }
}

proof fn lemma_split_dots_nonempty(s: Seq<char>)
    ensures
        split_dots(s).len() >= 1,
    decreases s.len(),
{
    if s.len() > 0 {
        lemma_split_dots_nonempty(s.skip(1));
    }
}

/// A field is acceptable when it is all digits and its value fits in `u32`.
pub open spec fn field_ok(s: Seq<char>) -> bool {
    is_digit_field(s) && digits_value(s) <= u32::MAX
}

/// A version string is acceptable when it has exactly four dot-separated
/// fields, each an acceptable decimal numeral.
pub open spec fn version_ok(s: Seq<char>) -> bool {
    let p = split_dots(s);
    p.len() == 4 && field_ok(p[0]) && field_ok(p[1]) && field_ok(p[2]) && field_ok(p[3])
}

/// The build denoted by an acceptable version string.
pub open spec fn version_value(s: Seq<char>) -> WindowsBuild {
    let p = split_dots(s);
    WindowsBuild {
        major: digits_value(p[0]) as u32,
        minor: digits_value(p[1]) as u32,
        build: digits_value(p[2]) as u32,
        revision: digits_value(p[3]) as u32,
    }
}

/// The still-growing first field `cur` glued onto the front of a split tail.
spec fn cons_first(cur: Seq<char>, tail: Seq<Seq<char>>) -> Seq<Seq<char>>
    recommends
        tail.len() >= 1,
{
    seq![cur + tail[0]] + tail.skip(1)
}

/// Parse an unsigned decimal numeral. Returns `Ok` exactly for nonempty
/// all-digit strings whose value fits in `u32`; everything else is a
/// `VersionParseFailure`.
pub fn parse_u32(s: &str) -> (r: Result<u32, Error>)
    ensures
        r is Ok <==> field_ok(s@),
        r matches Ok(v) ==> v as int == digits_value(s@),
        r matches Err(e) ==> e is VersionParseFailure,
{
    let n: usize = s.unicode_len();
    let mut digits: bool = true;
    let mut fits: bool = true;
    let mut val: u64 = 0;
    let mut i: usize = 0;
    proof {
        assert(s@.take(0) =~= Seq::<char>::empty());
    }
    while i < n
        invariant
            i <= n,
            n == s@.len(),
            digits == (forall|j: int| 0 <= j < i ==> is_decimal_digit(#[trigger] s@[j])),
            digits ==> digits_value(s@.take(i as int)) >= 0,
            digits ==> (fits == (digits_value(s@.take(i as int)) <= u32::MAX)),
            digits && fits ==> val as int == digits_value(s@.take(i as int)),
            val <= u32::MAX,
        decreases n - i,
    {
        let c = s.get_char(i);
        proof {
            assert(s@.take(i as int + 1).drop_last() =~= s@.take(i as int));
            assert(s@.take(i as int + 1).last() == s@[i as int]);
            assert(digits_value(s@.take(i as int + 1)) == 10 * digits_value(
                s@.take(i as int),
            ) + digit_value(s@[i as int]));
        }
        let cv: u32 = c as u32;
        if 48 <= cv && cv <= 57 && digits {
            let newv: u64 = val * 10 + ((cv - 48) as u64);
            if fits && newv <= 0xffff_ffff {
                val = newv;
            } else {
                fits = false;
            }
        } else {
            digits = false;
        }
        i = i + 1;
    }
    proof {
        assert(s@.take(n as int) =~= s@);
    }
    if digits && fits && n > 0 {
        Ok(val as u32)
    } else {
        Err(Error::VersionParseFailure)
    }
}

impl WindowsBuild {
    /// Parse a dotted 4-field build-number string like `10.0.17763.245`.
    /// Returns `Ok` exactly for strings with four dot-separated all-digit
    /// fields whose values fit in `u32`; everything else is a
    /// `VersionParseFailure`.
    pub fn parse_str(s: &str) -> (r: Result<WindowsBuild, Error>)
        ensures
            r is Ok <==> version_ok(s@),
            r matches Ok(b) ==> b == version_value(s@),
            r matches Err(e) ==> e is VersionParseFailure,
    {
        let n: usize = s.unicode_len();
        let mut vals: Vec<u32> = Vec::new();
        let mut fields_ok: bool = true;
        let mut cur_nonempty: bool = false;
        let mut cur_digits: bool = true;
        let mut cur_fits: bool = true;
        let mut cur_val: u64 = 0;
        let ghost mut done: Seq<Seq<char>> = Seq::empty();
        let ghost mut cur: Seq<char> = Seq::empty();
        let ghost mut bad: int = 0;
        let mut i: usize = 0;

        proof {
            assert(s@.skip(0) =~= s@);
            lemma_split_dots_nonempty(s@);
            let p = split_dots(s@);
            assert(seq![Seq::<char>::empty() + p[0]] + p.skip(1) =~~= p);
        }

        while i < n
            invariant
                i <= n,
                n == s@.len(),
                done.len() == vals@.len(),
                split_dots(s@) == done + cons_first(cur, split_dots(s@.skip(i as int))),
                cur_nonempty == (cur.len() > 0),
                cur_digits == (forall|j: int| 0 <= j < cur.len() ==> is_decimal_digit(
                    #[trigger] cur[j],
                )),
                cur_digits ==> digits_value(cur) >= 0,
                cur_digits ==> (cur_fits == (digits_value(cur) <= u32::MAX)),
                cur_digits && cur_fits ==> cur_val as int == digits_value(cur),
                cur_val <= u32::MAX,
                fields_ok ==> (forall|m: int| 0 <= m < done.len() ==> field_ok(
                    #[trigger] done[m],
                )),
                fields_ok ==> (forall|m: int| 0 <= m < done.len() ==> vals@[m] as int
                    == digits_value(#[trigger] done[m])),
                !fields_ok ==> 0 <= bad < done.len() && !field_ok(done[bad]),
            decreases n - i,
        {
            let c = s.get_char(i);
            proof {
                let t = s@.skip(i as int);
                assert(t.len() > 0);
                assert(t[0] == s@[i as int]);
                assert(t.skip(1) =~= s@.skip(i as int + 1));
                lemma_split_dots_nonempty(s@.skip(i as int + 1));
            }
            if c == '.' {
                let field_valid = cur_nonempty && cur_digits && cur_fits;
                let v: u32 = if field_valid {
                    cur_val as u32
                } else {
                    0
                };
                vals.push(v);
                proof {
                    let rest = split_dots(s@.skip(i as int + 1));
                    assert(split_dots(s@.skip(i as int)) == seq![Seq::<char>::empty()]
                        + rest);
                    assert(done + cons_first(cur, seq![Seq::<char>::empty()] + rest)
                        =~~= done.push(cur) + cons_first(Seq::<char>::empty(), rest));
                    assert(field_valid == field_ok(cur));
                    let done2 = done.push(cur);
                    assert(forall|m: int| 0 <= m < done.len() ==> #[trigger] done2[m]
                        == done[m]);
                    assert(done2[done.len() as int] == cur);
                    if fields_ok && !field_valid {
                        bad = done.len() as int;
                    }
                    done = done2;
                    cur = Seq::empty();
                }
                fields_ok = fields_ok && field_valid;
                cur_nonempty = false;
                cur_digits = true;
                cur_fits = true;
                cur_val = 0;
            } else {
                let cv: u32 = c as u32;
                let is_digit: bool = 48 <= cv && cv <= 57;
                proof {
                    assert(cur.push(c).drop_last() =~= cur);
                    assert(digits_value(cur.push(c)) == 10 * digits_value(cur)
                        + digit_value(c));
                }
                if is_digit && cur_digits {
                    let newv: u64 = cur_val * 10 + ((cv - 48) as u64);
                    if cur_fits && newv <= 0xffff_ffff {
                        cur_val = newv;
                    } else {
                        cur_fits = false;
                    }
                } else {
                    cur_digits = false;
                }
                cur_nonempty = true;
                proof {
                    let rest = split_dots(s@.skip(i as int + 1));
                    assert(split_dots(s@.skip(i as int)) == seq![seq![c] + rest[0]]
                        + rest.skip(1));
                    assert(done + cons_first(cur, split_dots(s@.skip(i as int)))
                        =~~= done + cons_first(cur.push(c), rest));
                    cur = cur.push(c);
                }
            }
            i = i + 1;
        }

        let field_valid = cur_nonempty && cur_digits && cur_fits;
        let v: u32 = if field_valid {
            cur_val as u32
        } else {
            0
        };
        vals.push(v);
        proof {
            assert(s@.skip(n as int) =~= Seq::<char>::empty());
            assert(done + cons_first(cur, split_dots(Seq::<char>::empty()))
                =~~= done.push(cur));
            assert(field_valid == field_ok(cur));
            let done2 = done.push(cur);
            assert(forall|m: int| 0 <= m < done.len() ==> #[trigger] done2[m] == done[m]);
            assert(done2[done.len() as int] == cur);
            if fields_ok && !field_valid {
                bad = done.len() as int;
            }
            done = done2;
        }
        fields_ok = fields_ok && field_valid;

        proof {
            assert(split_dots(s@) == done);
        }
        if fields_ok && vals.len() == 4 {
            let b = WindowsBuild {
                major: vals[0],
                minor: vals[1],
                build: vals[2],
                revision: vals[3],
            };
            Ok(b)
        } else {
            proof {
                if !fields_ok && split_dots(s@).len() == 4 {
                    assert(!field_ok(split_dots(s@)[bad]));
                }
            }
            Err(Error::VersionParseFailure)
        }
    }
}

impl core::str::FromStr for WindowsBuild {
    type Err = Error;

    fn from_str(s: &str) -> Result<WindowsBuild, Error> {
        WindowsBuild::parse_str(s)
    }
}

} // verus!
