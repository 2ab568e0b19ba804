//! Plain descriptions of the subprocess invocations the sandbox plans.
//!
//! The library never spawns a process itself: it hands these values to the
//! embedding program's process runner, which executes them and feeds the
//! captured outcome back in.
use vstd::prelude::*;
use vstd::string::StringExecFns;

verus! {

/// One planned invocation of an external command: the program, its argument
/// vector, and the runner policy toggles the sandbox sets per operation.
pub struct CommandSpec {
    pub program: String,
    pub args: Vec<String>,
    /// Suppress the command's console echo entirely.
    pub hide_output: bool,
    /// Enforce the runner's inactivity timeout; disabled for operations whose
    /// natural duration is unbounded, such as image pulls.
    pub enable_timeout: bool,
    /// Quiet mode for attached workload runs.
    pub quiet: bool,
    /// Capture the command's standard output as lines and hand them back.
    pub capture: bool,
}

/// The character sequences carried by a vector of argument strings.
pub open spec fn views_of(args: Seq<String>) -> Seq<Seq<char>> {
    args.map_values(|s: String| s@)
}

pub proof fn lemma_views_push(args: Seq<String>, x: String)
    ensures
        views_of(args.push(x)) =~= views_of(args).push(x@),
{
}

impl CommandSpec {
    /// The argument character sequences of this command.
    pub open spec fn args_view(&self) -> Seq<Seq<char>> {
        views_of(self.args@)
    }
}

/// Decimal digit character for one digit value.
pub open spec fn digit_char(d: nat) -> char
    recommends
        d <= 9,
{
    (48 + d) as char
}

/// The decimal numeral of `n`, most significant digit first, as `n` prints.
pub open spec fn dec_rep(n: nat) -> Seq<char>
    decreases n,
{
    if n < 10 {
        seq![digit_char(n)]
    } else {
        dec_rep(n / 10).push(digit_char(n % 10))
    }
}

/// Digit values collected least significant first, turned back into the
/// numeral's character order.
spec fn rev_chars(ds: Seq<u64>) -> Seq<char>
    decreases ds.len(),
{
    if ds.len() == 0 {
        Seq::empty()
    } else {
        rev_chars(ds.drop_first()).push(digit_char(ds.first() as nat))
    }
}

proof fn lemma_rev_chars_push(ds: Seq<u64>, d: u64)
    ensures
        rev_chars(ds.push(d)) =~= seq![digit_char(d as nat)] + rev_chars(ds),
    decreases ds.len(),
{
    if ds.len() == 0 {
        assert(ds.push(d).drop_first() =~= Seq::<u64>::empty());
        assert(ds.push(d).first() == d);
        assert(rev_chars(ds.push(d)) == rev_chars(Seq::<u64>::empty()).push(
            digit_char(d as nat),
        ));
        assert(rev_chars(ds) == Seq::<char>::empty());
    } else {
        assert(ds.push(d).drop_first() =~= ds.drop_first().push(d));
        assert(ds.push(d).first() == ds.first());
        lemma_rev_chars_push(ds.drop_first(), d);
        assert(rev_chars(ds.push(d)) == rev_chars(ds.drop_first().push(d)).push(
            digit_char(ds.first() as nat),
        ));
        assert((seq![digit_char(d as nat)] + rev_chars(ds.drop_first())).push(
            digit_char(ds.first() as nat),
        ) =~= seq![digit_char(d as nat)] + rev_chars(ds));
    }
}

/// The string slice holding one decimal digit.
fn digit_str(d: u64) -> (r: &'static str)
    requires
        d <= 9,
    ensures
        r@ =~= seq![digit_char(d as nat)],
{
    let r = match d {
        0 => "0",
        1 => "1",
        2 => "2",
        3 => "3",
        4 => "4",
        5 => "5",
        6 => "6",
        7 => "7",
        8 => "8",
        _ => "9",
    };
    proof {
        reveal_strlit("0");
        reveal_strlit("1");
        reveal_strlit("2");
        reveal_strlit("3");
        reveal_strlit("4");
        reveal_strlit("5");
        reveal_strlit("6");
        reveal_strlit("7");
        reveal_strlit("8");
        reveal_strlit("9");
    }
    r
}

/// Format `n` as its decimal numeral, exactly as the engine expects plain
/// numeric flag values.
pub fn u64_to_decimal(n: u64) -> (r: String)
    ensures
        r@ == dec_rep(n as nat),
{
    if n == 0 {
        let r = String::from_str("0");
        proof {
            reveal_strlit("0");
            assert(r@ =~= dec_rep(0));
        }
        return r;
    }
    let mut digits: Vec<u64> = Vec::new();
    let mut m: u64 = n;
    proof {
        assert(rev_chars(digits@) =~= Seq::<char>::empty());
        assert(dec_rep(n as nat) + rev_chars(digits@) =~= dec_rep(n as nat));
    }
    while m > 0
        invariant
            forall|k: int| 0 <= k < digits@.len() ==> #[trigger] digits@[k] <= 9,
            m > 0 ==> dec_rep(n as nat) == dec_rep(m as nat) + rev_chars(digits@),
            m == 0 ==> dec_rep(n as nat) == rev_chars(digits@),
        decreases m,
    {
        let d: u64 = m % 10;
        proof {
            lemma_rev_chars_push(digits@, d);
            if m >= 10 {
                assert(dec_rep(m as nat) == dec_rep((m / 10) as nat).push(
                    digit_char((m % 10) as nat),
                ));
                assert(dec_rep((m / 10) as nat) + (seq![digit_char(d as nat)]
                    + rev_chars(digits@)) =~= dec_rep(m as nat) + rev_chars(digits@));
            } else {
                assert(dec_rep(m as nat) =~= seq![digit_char(d as nat)]);
                assert(seq![digit_char(d as nat)] + rev_chars(digits@) =~= dec_rep(
                    m as nat,
                ) + rev_chars(digits@));
            }
        }
        digits.push(d);
        m = m / 10;
    }
    let mut out = String::new();
    let mut j: usize = digits.len();
    proof {
        assert(digits@.skip(j as int) =~= Seq::<u64>::empty());
    }
    while j > 0
        invariant
            j <= digits@.len(),
            forall|k: int| 0 <= k < digits@.len() ==> #[trigger] digits@[k] <= 9,
            out@ == rev_chars(digits@.skip(j as int)),
            dec_rep(n as nat) == rev_chars(digits@),
        decreases j,
    {
        let piece = digit_str(digits[j - 1]);
        proof {
            assert(digits@.skip(j as int - 1).drop_first() =~= digits@.skip(j as int));
            assert(digits@.skip(j as int - 1).first() == digits@[j as int - 1]);
            assert(out@ + piece@ =~= rev_chars(digits@.skip(j as int - 1)));
        }
        out = out.concat(piece);
        j = j - 1;
    }
    proof {
        assert(digits@.skip(0) =~= digits@);
    }
    out
}

} // verus!
