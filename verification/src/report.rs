use vstd::prelude::*;

verus! {

/// Terminal classification of one validation session; it selects the
/// summary trailer appended at the single finalization point of a run.
#[derive(Clone, Copy)]
pub enum Classification {
    Failed,
    PassedWithWarnings,
    Passed,
}

/// The decimal digit character for `d` (meaningful for `d < 10`).
pub open spec fn dec_digit(d: nat) -> char {
    if d == 0 {
        '0'
    } else if d == 1 {
        '1'
    } else if d == 2 {
        '2'
    } else if d == 3 {
        '3'
    } else if d == 4 {
        '4'
    } else if d == 5 {
        '5'
    } else if d == 6 {
        '6'
    } else if d == 7 {
        '7'
    } else if d == 8 {
        '8'
    } else {
        '9'
    }
}

/// The decimal rendering of `n`, most significant digit first, no sign,
/// no leading zero except for `n == 0` itself.
pub open spec fn dec_str(n: nat) -> Seq<char>
    decreases n,
{
    if n < 10 {
        seq![dec_digit(n)]
    } else {
        dec_str(n / 10) + seq![dec_digit(n % 10)]
    }
}

/// One numbered finding line: two spaces, the 1-based position, a dot,
/// the finding, a newline.
pub open spec fn finding_line(k: nat, f: Seq<char>) -> Seq<char> {
    "  "@ + dec_str(k + 1) + ". "@ + f + "\n"@
}

/// The first `n` numbered finding lines of `fs`, in evaluator order.
pub open spec fn finding_lines(fs: Seq<Seq<char>>, n: nat) -> Seq<char>
    decreases n,
{
    if n == 0 {
        Seq::empty()
    } else {
        finding_lines(fs, (n - 1) as nat) + finding_line((n - 1) as nat, fs[n - 1])
    }
}

/// What one evaluator's findings add to the report: the literal "ok" line
/// for a pass, otherwise every finding as a numbered line, never re-sorted.
pub open spec fn findings_text(fs: Seq<Seq<char>>) -> Seq<char> {
    if fs.len() == 0 {
        "ok\n"@
    } else {
        finding_lines(fs, fs.len())
    }
}

/// The fixed-format summary trailer with exactly one of the three markers.
pub open spec fn summary_text(c: Classification) -> Seq<char> {
    "\n\n"@ + "============ SUMMARY ============\n"@ + (match c {
        Classification::Failed => "❌ File is invalid\n"@,
        Classification::PassedWithWarnings => "⚠️  File is valid but has warnings\n"@,
        Classification::Passed => "✅ File is valid\n"@,
    }) + "================================="@
}

/// Relies on String::push: appends the one character to the string.
#[verifier::external_body]
pub(crate) fn push_char(s: &mut String, c: char)
    ensures
        final(s)@ == old(s)@.push(c),
{
    s.push(c);
}

/// Relies on String::push_str: appends the given slice to the string.
#[verifier::external_body]
pub(crate) fn push_text(s: &mut String, t: &str)
    ensures
        final(s)@ == old(s)@ + t@,
{
    s.push_str(t);
}

fn dec_digit_char(d: u64) -> (c: char)
    requires
        d < 10,
    ensures
        c == dec_digit(d as nat),
{
    if d == 0 {
        '0'
    } else if d == 1 {
        '1'
    } else if d == 2 {
        '2'
    } else if d == 3 {
        '3'
    } else if d == 4 {
        '4'
    } else if d == 5 {
        '5'
    } else if d == 6 {
        '6'
    } else if d == 7 {
        '7'
    } else if d == 8 {
        '8'
    } else {
        '9'
    }
}

/// Appends the decimal rendering of `n`.
pub(crate) fn push_dec(s: &mut String, n: u64)
    ensures
        final(s)@ == old(s)@ + dec_str(n as nat),
    decreases n,
{
    if n >= 10 {
        push_dec(s, n / 10);
    }
    let c = dec_digit_char(n % 10);
    push_char(s, c);
    proof {
        assert(s@ == old(s)@ + dec_str(n as nat));
    }
}

/// Appends one evaluator's findings: "ok" when the stage passed, else the
/// numbered list in the evaluator's own order.
pub fn print_errors(s: &mut String, lserrs: &Vec<String>)
    ensures
        final(s)@ == old(s)@ + findings_text(lserrs.deep_view()),
{
    if lserrs.len() == 0 {
        push_text(s, "ok\n");
    } else {
        let mut i: usize = 0;
        while i < lserrs.len()
            invariant
                i <= lserrs.len(),
                lserrs.len() > 0,
                s@ == old(s)@ + finding_lines(lserrs.deep_view(), i as nat),
            decreases lserrs.len() - i,
        {
            push_text(s, "  ");
            push_dec(s, (i + 1) as u64);
            push_text(s, ". ");
            push_text(s, lserrs[i].as_str());
            push_text(s, "\n");
            proof {
                assert(s@ == old(s)@ + finding_lines(lserrs.deep_view(), (i + 1) as nat));
            }
            i = i + 1;
        }
    }
}

/// Appends the summary trailer for the given classification.
pub fn print_summary(s: &mut String, c: Classification)
    ensures
        final(s)@ == old(s)@ + summary_text(c),
{
    push_text(s, "\n\n");
    push_text(s, "============ SUMMARY ============\n");
    match c {
        Classification::Failed => push_text(s, "❌ File is invalid\n"),
        Classification::PassedWithWarnings => push_text(s, "⚠️  File is valid but has warnings\n"),
        Classification::Passed => push_text(s, "✅ File is valid\n"),
    }
    push_text(s, "=================================");
    proof {
        assert(s@ == old(s)@ + summary_text(c));
    }
}

} // verus!
