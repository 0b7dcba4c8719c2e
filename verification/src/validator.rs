use vstd::prelude::*;

use crate::engine;
use crate::report;
use crate::report::Classification;

verus! {

/// What construction recorded: the resolved builtin-schema version, the
/// schema stage's findings, and one outcome per supplied extension schema,
/// in input order (`None` is a successful load, `Some` holds the message).
pub ghost struct ConstructionLog {
    pub schema_version: Seq<char>,
    pub schema_findings: Seq<Seq<char>>,
    pub ext_outcomes: Seq<Option<Seq<char>>>,
}

/// Construction leaves the session valid exactly when the schema stage was
/// clean and every extension loaded.
pub open spec fn construction_valid(log: ConstructionLog) -> bool {
    &&& log.schema_findings.len() == 0
    &&& forall|k: int| 0 <= k < log.ext_outcomes.len() ==> log.ext_outcomes[k] is None
}

/// The status line of the extension with 1-based index `k`.
pub open spec fn ext_line(k: nat, o: Option<Seq<char>>) -> Seq<char> {
    match o {
        None => report::dec_str(k) + ". ok"@,
        Some(m) => report::dec_str(k) + ". ERROR\n("@ + m + ")"@,
    }
}

/// The status lines of the first `n` extension outcomes, in index order.
pub open spec fn ext_lines(outcomes: Seq<Option<Seq<char>>>, n: nat) -> Seq<char>
    decreases n,
{
    if n == 0 {
        Seq::empty()
    } else {
        ext_lines(outcomes, (n - 1) as nat) + ext_line(n, outcomes[n - 1])
    }
}

/// The report accumulated by construction: the syntax section with the
/// schema version and the schema stage's findings, then — only when that
/// stage was clean — the extension section with one line per extension.
pub open spec fn construction_report(log: ConstructionLog) -> Seq<char> {
    "=== CityJSON syntax ===\n"@ + "CityJSON schemas used: v"@ + log.schema_version
        + " (builtin)\n\n"@ + report::findings_text(log.schema_findings) + (
    if log.schema_findings.len() == 0 {
        "=== Extensions schemas ===\n"@ + ext_lines(log.ext_outcomes, log.ext_outcomes.len())
    } else {
        Seq::empty()
    })
}

/// The three fatal structural stages are clean.
pub open spec fn fatal_stages_pass(v: cjval::CJValidator) -> bool {
    &&& engine::parent_children_findings(v).len() == 0
    &&& engine::vertex_index_findings(v).len() == 0
    &&& engine::semantics_findings(v).len() == 0
}

/// Some warning-class stage has findings.
pub open spec fn has_warnings(v: cjval::CJValidator) -> bool {
    ||| engine::duplicate_vertex_findings(v).len() > 0
    ||| engine::extra_root_findings(v).len() > 0
    ||| engine::unused_vertex_findings(v).len() > 0
}

/// One run of the semantic pipeline keeps the session valid exactly when
/// the document is not the legacy major version, the extension stage is
/// clean, and every fatal structural stage is clean.
pub open spec fn run_valid(v: cjval::CJValidator) -> bool {
    &&& engine::version_of(v) != 10
    &&& engine::ext_finding_multiset(v).len() == 0
    &&& fatal_stages_pass(v)
}

/// The validity flag after one run of the pipeline, from the flag before
/// it: a fatal outcome forces and keeps `false`, warnings never flip it.
pub open spec fn verdict(prev: bool, v: cjval::CJValidator) -> bool {
    prev && run_valid(v)
}

/// The text of the fatal structural sections, all three always present.
pub open spec fn fatal_stage_text(v: cjval::CJValidator) -> Seq<char> {
    "=== parent_children_consistency ===\n"@ + report::findings_text(
        engine::parent_children_findings(v),
    ) + "=== wrong_vertex_index ===\n"@ + report::findings_text(engine::vertex_index_findings(v))
        + "=== semantics_arrays ===\n"@ + report::findings_text(engine::semantics_findings(v))
}

/// The text of the warning sections, all three always present.
pub open spec fn warning_stage_text(v: cjval::CJValidator) -> Seq<char> {
    "=== duplicate_vertices (warnings) ===\n"@ + report::findings_text(
        engine::duplicate_vertex_findings(v),
    ) + "=== extra_root_properties (warnings) ===\n"@ + report::findings_text(
        engine::extra_root_findings(v),
    ) + "=== unused_vertices (warnings) ===\n"@ + report::findings_text(
        engine::unused_vertex_findings(v),
    )
}

/// Everything one `validate` call appends to the report, decided by the
/// validity flag before the call, the stage outcomes, and the sequence
/// `ext` that the extension stage handed back (only its collection is a
/// function of the validator, so the sequence itself is a parameter
/// here), with the pipeline's short-circuit rules.
pub open spec fn run_report(prev: bool, v: cjval::CJValidator, ext: Seq<Seq<char>>) -> Seq<char> {
    if !prev {
        report::summary_text(Classification::Failed)
    } else if engine::version_of(v) == 10 {
        "(validation of Extensions is not supported in v1.0, upgrade to v1.1)"@
            + report::summary_text(Classification::Failed)
    } else if ext.len() > 0 {
        report::findings_text(ext) + report::summary_text(Classification::Failed)
    } else if !fatal_stages_pass(v) {
        report::findings_text(ext) + fatal_stage_text(v) + report::summary_text(
            Classification::Failed,
        )
    } else {
        report::findings_text(ext) + fatal_stage_text(v) + warning_stage_text(v)
            + report::summary_text(
            if has_warnings(v) {
                Classification::PassedWithWarnings
            } else {
                Classification::Passed
            },
        )
    }
}

/// One validation session: the parsed document inside cjval's validator,
/// the accumulated report, the validity flag, and the ghost record of what
/// construction observed.
pub struct Validator {
    val: cjval::CJValidator,
    serrors: String,
    isvalid: bool,
    log: Ghost<ConstructionLog>,
}

impl Validator {
    /// The cjval validator this session runs its stages against.
    pub closed spec fn engine(self) -> cjval::CJValidator {
        self.val
    }

    /// The report accumulated so far.
    pub closed spec fn report_view(self) -> Seq<char> {
        self.serrors@
    }

    /// The validity flag.
    pub closed spec fn valid_flag(self) -> bool {
        self.isvalid
    }

    /// What construction recorded.
    pub closed spec fn log(self) -> ConstructionLog {
        self.log@
    }

    /// A session still marked valid passed the schema stage and carries
    /// only well-shaped extensions: what the rule evaluators assume of the
    /// validator they walk.  Construction establishes this by running the
    /// schema stage first and by turning away ill-shaped extension texts
    /// as load errors.
    pub open spec fn wf(self) -> bool {
        self.valid_flag() ==> engine::schema_findings(self.engine()).len() == 0
            && engine::exts_shaped(self.engine())
    }
}

proof fn lemma_ext_lines_push(outcomes: Seq<Option<Seq<char>>>, o: Option<Seq<char>>, n: nat)
    requires
        n <= outcomes.len(),
    ensures
        ext_lines(outcomes.push(o), n) == ext_lines(outcomes, n),
    decreases n,
{
    if n > 0 {
        lemma_ext_lines_push(outcomes, o, (n - 1) as nat);
        assert(outcomes.push(o)[n - 1] == outcomes[n - 1]);
    }
}

impl Validator {
    /// Builds a session from the primary document text (`j[0]`) and the
    /// extension schema texts (`j[1..]`, matched to their 1-based index).
    /// A document that does not parse is a hard error and yields nothing;
    /// otherwise the schema stage runs, and — only when it is clean — every
    /// extension is loaded in index order, one status line each.
    pub fn new(j: Vec<String>) -> (r: Result<Validator, String>)
        requires
            j@.len() >= 1,
        ensures
            r is Ok <==> engine::doc_parses(j@[0]@),
            r matches Err(m) ==> m@ == "Invalid JSON file: "@ + engine::parse_error_of(j@[0]@),
            r matches Ok(v) ==> v.wf(),
            r matches Ok(v) ==> v.log().schema_findings == engine::schema_findings(v.engine()),
            r matches Ok(v) ==> v.log().schema_version == engine::schema_version_of(v.engine()),
            r matches Ok(v) ==> v.report_view() == construction_report(v.log()),
            r matches Ok(v) ==> v.valid_flag() == construction_valid(v.log()),
            r matches Ok(v) ==> (v.log().schema_findings.len() > 0 ==> v.log().ext_outcomes.len()
                == 0),
            r matches Ok(v) ==> (v.log().schema_findings.len() == 0 ==> v.log().ext_outcomes.len()
                == j@.len() - 1),
            r matches Ok(v) ==> (forall|k: int|
                0 <= k < v.log().ext_outcomes.len() ==> ((#[trigger] v.log().ext_outcomes[k])
                    is None <==> engine::ext_attachable(j@[k + 1]@))),
    {
        let parsed = engine::parse_document(j[0].as_str());
        match parsed {
            Err(e) => {
                let mut msg = String::new();
                report::push_text(&mut msg, "Invalid JSON file: ");
                report::push_text(&mut msg, e.as_str());
                Err(msg)
            },
            Ok(first) => {
                let mut val = first;
                let mut isvalid = true;
                let mut s = String::new();
                report::push_text(&mut s, "=== CityJSON syntax ===\n");
                report::push_text(&mut s, "CityJSON schemas used: v");
                let ver = engine::get_schema_version(&val);
                report::push_text(&mut s, ver.as_str());
                report::push_text(&mut s, " (builtin)\n\n");
                let rev = engine::validate_schema(&val);
                report::print_errors(&mut s, &rev);
                let ghost mut outcomes: Seq<Option<Seq<char>>> = Seq::empty();
                if rev.len() == 0 {
                    report::push_text(&mut s, "=== Extensions schemas ===\n");
                    let ghost base = s@;
                    let mut i: usize = 1;
                    while i < j.len()
                        invariant
                            1 <= i <= j@.len(),
                            outcomes.len() == i - 1,
                            s@ == base + ext_lines(outcomes, outcomes.len()),
                            isvalid <==> (forall|k: int|
                                0 <= k < outcomes.len() ==> outcomes[k] is None),
                            forall|k: int|
                                0 <= k < outcomes.len() ==> ((#[trigger] outcomes[k]) is None
                                    <==> engine::ext_attachable(j@[k + 1]@)),
                            engine::schema_findings(val) == rev.deep_view(),
                            engine::schema_version_of(val) == ver@,
                            engine::exts_shaped(val),
                            rev.deep_view().len() == 0,
                        decreases j@.len() - i,
                    {
                        let mut name = String::new();
                        report::push_dec(&mut name, i as u64);
                        let ghost prev = outcomes;
                        if engine::extension_shape_ok(j[i].as_str()) {
                            let re = engine::add_extension(&mut val, name.as_str(), j[i].as_str());
                            match re {
                                Ok(()) => {
                                    report::push_dec(&mut s, i as u64);
                                    report::push_text(&mut s, ". ok");
                                    proof {
                                        outcomes = prev.push(None);
                                        assert(forall|k: int|
                                            0 <= k < prev.len() ==> outcomes[k] == prev[k]);
                                    }
                                },
                                Err(e) => {
                                    report::push_dec(&mut s, i as u64);
                                    report::push_text(&mut s, ". ERROR\n(");
                                    report::push_text(&mut s, e.as_str());
                                    report::push_text(&mut s, ")");
                                    isvalid = false;
                                    proof {
                                        outcomes = prev.push(Some(e@));
                                        assert(outcomes[outcomes.len() - 1] is Some);
                                        assert(forall|k: int|
                                            0 <= k < prev.len() ==> outcomes[k] == prev[k]);
                                    }
                                },
                            }
                        } else {
                            report::push_dec(&mut s, i as u64);
                            report::push_text(&mut s, ". ERROR\n(");
                            report::push_text(
                                &mut s,
                                "not an Extension schema: extraCityObjects, extraRootProperties and extraAttributes must be objects holding object schemas",
                            );
                            report::push_text(&mut s, ")");
                            isvalid = false;
                            proof {
                                outcomes =
                                prev.push(
                                    Some(
                                        "not an Extension schema: extraCityObjects, extraRootProperties and extraAttributes must be objects holding object schemas"@,
                                    ),
                                );
                                assert(outcomes[outcomes.len() - 1] is Some);
                                assert(forall|k: int|
                                    0 <= k < prev.len() ==> outcomes[k] == prev[k]);
                            }
                        }
                        proof {
                            lemma_ext_lines_push(prev, outcomes[outcomes.len() - 1], (i - 1) as nat);
                            assert(s@ == base + ext_lines(outcomes, outcomes.len()));
                        }
                        i = i + 1;
                    }
                } else {
                    isvalid = false;
                }
                let ghost log = ConstructionLog {
                    schema_version: ver@,
                    schema_findings: rev.deep_view(),
                    ext_outcomes: outcomes,
                };
                let out = Validator { val, serrors: s, isvalid, log: Ghost(log) };
                proof {
                    assert(out.report_view() == construction_report(out.log()));
                }
                Ok(out)
            },
        }
    }

    /// A copy of the report accumulated so far.
    pub fn get_report(&self) -> (r: String)
        ensures
            r@ == self.report_view(),
    {
        self.serrors.clone()
    }

    /// Runs the semantic pipeline once and appends its sections and the
    /// summary trailer to the report.  A session already invalid, a legacy
    /// v1.0 document, and a failed extension stage each finalize at once;
    /// the three fatal structural stages then all run, and the three
    /// warning stages run only when every fatal stage was clean.  Returns
    /// the validity flag, which warnings never affect.
    ///
    /// Beyond the session invariant, the stages that actually run must be
    /// able to walk the document: cjval dereferences a few shapes the
    /// schema does not constrain (see the domain predicates of the
    /// engine), and this library does not re-check the document for it.
    /// Each premise is demanded only on the paths that reach its stage,
    /// so an already-invalid session and a legacy document are handled
    /// for every input, and the structural premises only matter once the
    /// extension stage came back clean.
    #[verifier::rlimit(100)]
    pub fn validate(&mut self) -> (r: bool)
        requires
            old(self).wf(),
            old(self).valid_flag() && engine::version_of(old(self).engine()) != 10
                ==> engine::names_sliceable(old(self).engine()) && engine::ext_schemas_compilable(
                old(self).engine(),
            ),
            old(self).valid_flag() && engine::version_of(old(self).engine()) != 10
                && engine::ext_finding_multiset(old(self).engine()).len() == 0
                ==> engine::boundaries_decodable(old(self).engine()) && engine::semantics_walkable(
                old(self).engine(),
            ),
        ensures
            final(self).wf(),
            final(self).engine() == old(self).engine(),
            final(self).log() == old(self).log(),
            final(self).valid_flag() == verdict(old(self).valid_flag(), old(self).engine()),
            r == final(self).valid_flag(),
            old(self).valid_flag() && engine::version_of(old(self).engine()) != 10 ==> (exists|
                ext: Seq<Seq<char>>,
            |
                #[trigger] ext.to_multiset() == engine::ext_finding_multiset(old(self).engine())
                    && final(self).report_view() == old(self).report_view() + run_report(
                    old(self).valid_flag(),
                    old(self).engine(),
                    ext,
                )),
            !(old(self).valid_flag() && engine::version_of(old(self).engine()) != 10)
                ==> final(self).report_view() == old(self).report_view() + run_report(
                old(self).valid_flag(),
                old(self).engine(),
                Seq::<Seq<char>>::empty(),
            ),
    {
        if !self.isvalid {
            report::print_summary(&mut self.serrors, Classification::Failed);
            return false;
        }
        if engine::get_input_version(&self.val) == 10 {
            report::push_text(
                &mut self.serrors,
                "(validation of Extensions is not supported in v1.0, upgrade to v1.1)",
            );
            report::print_summary(&mut self.serrors, Classification::Failed);
            self.isvalid = false;
            return false;
        }
        let rev = engine::validate_extensions(&self.val);
        report::print_errors(&mut self.serrors, &rev);
        let ghost extseq = rev.deep_view();
        proof {
            extseq.to_multiset_ensures();
        }
        if rev.len() > 0 {
            report::print_summary(&mut self.serrors, Classification::Failed);
            self.isvalid = false;
            proof {
                assert(self.serrors@ == old(self).serrors@ + run_report(
                    true,
                    old(self).engine(),
                    extseq,
                ));
            }
            return false;
        }
        report::push_text(&mut self.serrors, "=== parent_children_consistency ===\n");
        let rev = engine::parent_children_consistency(&self.val);
        report::print_errors(&mut self.serrors, &rev);
        if rev.len() > 0 {
            self.isvalid = false;
        }
        report::push_text(&mut self.serrors, "=== wrong_vertex_index ===\n");
        let rev = engine::wrong_vertex_index(&self.val);
        report::print_errors(&mut self.serrors, &rev);
        if rev.len() > 0 {
            self.isvalid = false;
        }
        report::push_text(&mut self.serrors, "=== semantics_arrays ===\n");
        let rev = engine::semantics_arrays(&self.val);
        report::print_errors(&mut self.serrors, &rev);
        if rev.len() > 0 {
            self.isvalid = false;
        }
        if !self.isvalid {
            report::print_summary(&mut self.serrors, Classification::Failed);
            proof {
                assert(self.serrors@ == old(self).serrors@ + run_report(
                    true,
                    old(self).engine(),
                    extseq,
                ));
            }
            return false;
        }
        let mut bwarns = false;
        report::push_text(&mut self.serrors, "=== duplicate_vertices (warnings) ===\n");
        let rev = engine::duplicate_vertices(&self.val);
        report::print_errors(&mut self.serrors, &rev);
        if rev.len() > 0 {
            bwarns = true;
        }
        report::push_text(&mut self.serrors, "=== extra_root_properties (warnings) ===\n");
        let rev = engine::extra_root_properties(&self.val);
        report::print_errors(&mut self.serrors, &rev);
        if rev.len() > 0 {
            bwarns = true;
        }
        report::push_text(&mut self.serrors, "=== unused_vertices (warnings) ===\n");
        let rev = engine::unused_vertices(&self.val);
        report::print_errors(&mut self.serrors, &rev);
        if rev.len() > 0 {
            bwarns = true;
        }
        if !bwarns {
            report::print_summary(&mut self.serrors, Classification::Passed);
        } else {
            report::print_summary(&mut self.serrors, Classification::PassedWithWarnings);
        }
        proof {
            assert(self.serrors@ == old(self).serrors@ + run_report(
                true,
                old(self).engine(),
                extseq,
            ));
        }
        true
    }
}

/// A schema-stage failure at construction makes the session invalid, and
/// the later run then appends nothing but the FAILED trailer, whatever the
/// document or the extensions hold.
pub proof fn lemma_schema_failure_is_fatal(
    log: ConstructionLog,
    v: cjval::CJValidator,
    ext: Seq<Seq<char>>,
)
    requires
        log.schema_findings.len() > 0,
    ensures
        !construction_valid(log),
        verdict(construction_valid(log), v) == false,
        run_report(construction_valid(log), v, ext) == report::summary_text(
            Classification::Failed,
        ),
{
}

/// Extension status lines stand in index order: the text for the first `n`
/// outcomes is the text for the first `n - 1` followed by the line of the
/// extension with 1-based index `n`.
pub proof fn lemma_extension_lines_in_order(outcomes: Seq<Option<Seq<char>>>, n: nat)
    requires
        1 <= n <= outcomes.len(),
    ensures
        ext_lines(outcomes, n) == ext_lines(outcomes, (n - 1) as nat) + ext_line(
            n,
            outcomes[n - 1],
        ),
{
}

/// A document declaring the legacy major version always fails the run with
/// the fixed notice, and no semantic stage text is produced.
pub proof fn lemma_legacy_version_gate(prev: bool, v: cjval::CJValidator, ext: Seq<Seq<char>>)
    requires
        prev,
        engine::version_of(v) == 10,
    ensures
        verdict(prev, v) == false,
        run_report(prev, v, ext) == "(validation of Extensions is not supported in v1.0, upgrade to v1.1)"@
            + report::summary_text(Classification::Failed),
{
}

/// Once a fatal structural stage fails, the run is fatal and the warning
/// sections are absent from its text.
pub proof fn lemma_fatal_short_circuit(prev: bool, v: cjval::CJValidator, ext: Seq<Seq<char>>)
    requires
        prev,
        engine::version_of(v) != 10,
        engine::ext_finding_multiset(v).len() == 0,
        ext.len() == 0,
        !fatal_stages_pass(v),
    ensures
        verdict(prev, v) == false,
        run_report(prev, v, ext) == report::findings_text(ext) + fatal_stage_text(v)
            + report::summary_text(Classification::Failed),
{
}

/// Warnings are not fatal.  When the legacy gate, the extension stage and
/// all fatal stages are clean, the run keeps the validity flag it started
/// with, whatever the warning stages found.
pub proof fn lemma_warnings_preserve_validity(prev: bool, v: cjval::CJValidator)
    requires
        engine::version_of(v) != 10,
        engine::ext_finding_multiset(v).len() == 0,
        fatal_stages_pass(v),
    ensures
        verdict(prev, v) == prev,
{
}

/// Once the session is invalid it stays invalid: no later run of the
/// pipeline can turn the validity flag back on.
pub proof fn lemma_invalid_stays_invalid(prev: bool, v: cjval::CJValidator)
    requires
        !prev,
    ensures
        !verdict(prev, v),
{
}

/// Running the pipeline twice over an unchanged validator is idempotent
/// in its boolean outcome: the second `validate` call returns what the
/// first one returned.
pub proof fn lemma_validate_idempotent(prev: bool, v: cjval::CJValidator)
    ensures
        verdict(verdict(prev, v), v) == verdict(prev, v),
{
}

} // verus!
