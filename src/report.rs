use vstd::prelude::*;

use crate::options::CompileOptions;

verus! {

/// The level of one diagnostic.
#[derive(Clone, Copy, Debug, PartialEq, Eq, Structural)]
pub enum Severity {
    Error,
    Warning,
}

/// Some diagnostic of `s` is an error.
pub open spec fn has_error(s: Seq<Severity>) -> bool {
    exists|i: int| 0 <= i < s.len() && s[i] is Error
}

/// Some diagnostic of `s` is a warning.
pub open spec fn has_warning(s: Seq<Severity>) -> bool {
    exists|i: int| 0 <= i < s.len() && s[i] is Warning
}

/// A stage passes when it succeeded, reported no error, and reported no warning
/// while warnings are denied.
pub open spec fn passes(succeeded: bool, s: Seq<Severity>, o: CompileOptions) -> bool {
    succeeded && !has_error(s) && !(o.deny_warnings && has_warning(s))
}

/// A diagnostic is printed unless it is a warning and warnings are silenced.
pub open spec fn is_printed(d: Severity, o: CompileOptions) -> bool {
    !(o.silence_warnings && d is Warning)
}

/// The indices, in order, of the first `n` diagnostics of `s` that are printed.
pub open spec fn printed_prefix(s: Seq<Severity>, o: CompileOptions, n: nat) -> Seq<usize>
    decreases n,
{
    if n == 0 {
        Seq::empty()
    } else {
        let p = printed_prefix(s, o, (n - 1) as nat);
        if is_printed(s[n - 1], o) {
            p.push((n - 1) as usize)
        } else {
            p
        }
    }
}

/// The indices, in order, of the diagnostics of `s` that are printed.
pub open spec fn printed_indices(s: Seq<Severity>, o: CompileOptions) -> Seq<usize> {
    printed_prefix(s, o, s.len())
}

/// What the reporter decided for one batch of diagnostics: whether the stage
/// passes, and which diagnostics (by index) are shown to the user.
pub struct Report {
    pub passed: bool,
    pub printed: Vec<usize>,
}

/// Applies the warnings policy to the diagnostics of one stage.
///
/// `succeeded` says whether the stage itself produced its result; `severities`
/// lists its diagnostics. Every diagnostic is printed, whatever the verdict,
/// except warnings while they are silenced.
pub fn report_errors(succeeded: bool, severities: &Vec<Severity>, options: CompileOptions) -> (r: Report)
    ensures
        r.passed == passes(succeeded, severities@, options),
        r.printed@ == printed_indices(severities@, options),
{
    let mut errors = false;
    let mut warnings = false;
    let mut printed: Vec<usize> = Vec::new();
    let n = severities.len();
    let mut i: usize = 0;
    while i < n
        invariant
            n == severities@.len(),
            0 <= i <= n,
            errors <==> exists|j: int| 0 <= j < i && severities@[j] is Error,
            warnings <==> exists|j: int| 0 <= j < i && severities@[j] is Warning,
            printed@ == printed_prefix(severities@, options, i as nat),
        decreases n - i,
    {
        let d = severities[i];
        match d {
            Severity::Error => {
                errors = true;
            },
            Severity::Warning => {
                warnings = true;
            },
        }
        if !(options.silence_warnings && d == Severity::Warning) {
            printed.push(i);
        }
        i = i + 1;
    }
    Report { passed: succeeded && !errors && !(options.deny_warnings && warnings), printed }
}

proof fn lemma_printed_ignores_deny(s: Seq<Severity>, o1: CompileOptions, o2: CompileOptions, n: nat)
    requires
        o1.silence_warnings == o2.silence_warnings,
        n <= s.len(),
    ensures
        printed_prefix(s, o1, n) == printed_prefix(s, o2, n),
    decreases n,
{
    if n > 0 {
        lemma_printed_ignores_deny(s, o1, o2, (n - 1) as nat);
    }
}

proof fn lemma_printed_warnings(s: Seq<Severity>, o: CompileOptions, n: nat)
    requires
        n <= s.len(),
        forall|i: int| 0 <= i < s.len() ==> s[i] is Warning,
    ensures
        o.silence_warnings ==> printed_prefix(s, o, n) == Seq::<usize>::empty(),
        !o.silence_warnings ==> printed_prefix(s, o, n) == Seq::new(n, |i: int| i as usize),
    decreases n,
{
    if n > 0 {
        lemma_printed_warnings(s, o, (n - 1) as nat);
        assert(Seq::new((n - 1) as nat, |i: int| i as usize).push((n - 1) as usize)
            =~= Seq::new(n, |i: int| i as usize));
    } else {
        assert(Seq::new(n, |i: int| i as usize) =~= Seq::<usize>::empty());
    }
}

/// Warnings only fail a stage when they are denied. A stage that succeeded with
/// warnings alone passes exactly when `deny_warnings` is off; denying them
/// changes nothing in what is printed; every warning is printed unless warnings
/// are silenced, and then none is.
pub proof fn lemma_warnings_as_errors(s: Seq<Severity>, allow: CompileOptions, deny: CompileOptions)
    requires
        s.len() > 0,
        forall|i: int| 0 <= i < s.len() ==> s[i] is Warning,
        !allow.deny_warnings,
        deny.deny_warnings,
        allow.silence_warnings == deny.silence_warnings,
    ensures
        passes(true, s, allow),
        !passes(true, s, deny),
        printed_indices(s, allow) == printed_indices(s, deny),
        allow.silence_warnings ==> printed_indices(s, allow) == Seq::<usize>::empty(),
        !allow.silence_warnings ==> printed_indices(s, allow) == Seq::new(s.len(), |i: int| i as usize),
{
    assert(s[0] is Warning);
    lemma_printed_ignores_deny(s, allow, deny, s.len());
    lemma_printed_warnings(s, allow, s.len());
}

} // verus!
