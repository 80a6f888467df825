use vstd::prelude::*;

verus! {

/// The faults that can be applied to the three phases A, B and C during the
/// middle half of the timeline.
#[derive(Clone, Copy, Debug, PartialEq, Eq, Structural)]
pub enum FaultKind {
    NoFault,
    MonophasicA,
    MonophasicB,
    MonophasicC,
    TwoPhaseABGround,
    TwoPhaseAB,
    TwoPhaseBCGround,
    TwoPhaseBC,
    TwoPhaseCAGround,
    TwoPhaseCA,
    ThreePhaseGround,
    ThreePhase,
    SagA,
    SagAB,
    SagABC,
}

/// What a fault does to one phase while it is applied.
#[derive(Clone, Copy, Debug, PartialEq, Eq, Structural)]
pub enum PhaseRule {
    /// The phase keeps its value.
    Keep,
    /// The phase is shorted to ground: its value is zero.
    Ground,
    /// The phase is shorted to the other phases marked `Short`, without
    /// ground: all of them take their common mean value.
    Short,
    /// The phase sags: its value is scaled by the sag percentage.
    Sag,
}

/// What a fault does to each of the phases A, B and C.
#[derive(Clone, Copy, Debug, PartialEq, Eq, Structural)]
pub struct FaultPlan {
    pub a: PhaseRule,
    pub b: PhaseRule,
    pub c: PhaseRule,
}

/// The plan of each fault: the phases it names are grounded, shorted
/// together or sagged, and the others keep their value.
pub open spec fn plan_of(kind: FaultKind) -> FaultPlan {
    let k = PhaseRule::Keep;
    let g = PhaseRule::Ground;
    let s = PhaseRule::Short;
    let d = PhaseRule::Sag;
    match kind {
        FaultKind::NoFault => FaultPlan { a: k, b: k, c: k },
        FaultKind::MonophasicA => FaultPlan { a: g, b: k, c: k },
        FaultKind::MonophasicB => FaultPlan { a: k, b: g, c: k },
        FaultKind::MonophasicC => FaultPlan { a: k, b: k, c: g },
        FaultKind::TwoPhaseABGround => FaultPlan { a: g, b: g, c: k },
        FaultKind::TwoPhaseAB => FaultPlan { a: s, b: s, c: k },
        FaultKind::TwoPhaseBCGround => FaultPlan { a: k, b: g, c: g },
        FaultKind::TwoPhaseBC => FaultPlan { a: k, b: s, c: s },
        FaultKind::TwoPhaseCAGround => FaultPlan { a: g, b: k, c: g },
        FaultKind::TwoPhaseCA => FaultPlan { a: s, b: k, c: s },
        FaultKind::ThreePhaseGround => FaultPlan { a: g, b: g, c: g },
        FaultKind::ThreePhase => FaultPlan { a: s, b: s, c: s },
        FaultKind::SagA => FaultPlan { a: d, b: k, c: k },
        FaultKind::SagAB => FaultPlan { a: d, b: d, c: k },
        FaultKind::SagABC => FaultPlan { a: d, b: d, c: d },
    }
}

/// 1 where `rule` is `target`, else 0.
pub open spec fn rule_is(rule: PhaseRule, target: PhaseRule) -> nat {
    if rule == target { 1 } else { 0 }
}

/// How many phases of `plan` follow `rule`.
pub open spec fn phases_with(plan: FaultPlan, rule: PhaseRule) -> nat {
    rule_is(plan.a, rule) + rule_is(plan.b, rule) + rule_is(plan.c, rule)
}

/// The faults in the order in which they are offered.
pub open spec fn catalogue() -> Seq<FaultKind> {
    seq![
        FaultKind::NoFault,
        FaultKind::MonophasicA,
        FaultKind::MonophasicB,
        FaultKind::MonophasicC,
        FaultKind::TwoPhaseABGround,
        FaultKind::TwoPhaseAB,
        FaultKind::TwoPhaseBCGround,
        FaultKind::TwoPhaseBC,
        FaultKind::TwoPhaseCAGround,
        FaultKind::TwoPhaseCA,
        FaultKind::ThreePhaseGround,
        FaultKind::ThreePhase,
        FaultKind::SagA,
        FaultKind::SagAB,
        FaultKind::SagABC,
    ]
}

/// The name under which a fault is offered and selected.
pub open spec fn label_of(kind: FaultKind) -> Seq<char> {
    match kind {
        FaultKind::NoFault => "None"@,
        FaultKind::MonophasicA => "Monophasic A"@,
        FaultKind::MonophasicB => "Monophasic B"@,
        FaultKind::MonophasicC => "Monophasic C"@,
        FaultKind::TwoPhaseABGround => "Two-phase A-B-ground"@,
        FaultKind::TwoPhaseAB => "Two-phase A-B"@,
        FaultKind::TwoPhaseBCGround => "Two-phase B-C-ground"@,
        FaultKind::TwoPhaseBC => "Two-phase B-C"@,
        FaultKind::TwoPhaseCAGround => "Two-phase C-A-ground"@,
        FaultKind::TwoPhaseCA => "Two-phase C-A"@,
        FaultKind::ThreePhaseGround => "Three-phase-ground"@,
        FaultKind::ThreePhase => "Three-phase"@,
        FaultKind::SagA => "Sag A"@,
        FaultKind::SagAB => "Sag AB"@,
        FaultKind::SagABC => "Sag ABC"@,
    }
}

/// The fault selected by `name`: the fault whose label `name` is; a name
/// that is no fault's label selects no fault.
pub open spec fn kind_named(name: Seq<char>) -> FaultKind {
    if exists|k: FaultKind| label_of(k) == name {
        choose|k: FaultKind| label_of(k) == name
    } else {
        FaultKind::NoFault
    }
}

/// No two faults share a label.
pub proof fn lemma_labels_distinct(k1: FaultKind, k2: FaultKind)
    ensures
        label_of(k1) == label_of(k2) ==> k1 == k2,
{
    reveal_strlit("None");
    reveal_strlit("Monophasic A");
    reveal_strlit("Monophasic B");
    reveal_strlit("Monophasic C");
    reveal_strlit("Two-phase A-B-ground");
    reveal_strlit("Two-phase A-B");
    reveal_strlit("Two-phase B-C-ground");
    reveal_strlit("Two-phase B-C");
    reveal_strlit("Two-phase C-A-ground");
    reveal_strlit("Two-phase C-A");
    reveal_strlit("Three-phase-ground");
    reveal_strlit("Three-phase");
    reveal_strlit("Sag A");
    reveal_strlit("Sag AB");
    reveal_strlit("Sag ABC");
    assert(("None"@).len() == 4);
    assert(("Monophasic A"@).len() == 12);
    assert(("Monophasic B"@).len() == 12);
    assert(("Monophasic C"@).len() == 12);
    assert(("Two-phase A-B-ground"@).len() == 20);
    assert(("Two-phase A-B"@).len() == 13);
    assert(("Two-phase B-C-ground"@).len() == 20);
    assert(("Two-phase B-C"@).len() == 13);
    assert(("Two-phase C-A-ground"@).len() == 20);
    assert(("Two-phase C-A"@).len() == 13);
    assert(("Three-phase-ground"@).len() == 18);
    assert(("Three-phase"@).len() == 11);
    assert(("Sag A"@).len() == 5);
    assert(("Sag AB"@).len() == 6);
    assert(("Sag ABC"@).len() == 7);
    assert(("Monophasic A"@)[11] == 'A');
    assert(("Monophasic B"@)[11] == 'B');
    assert(("Monophasic C"@)[11] == 'C');
    assert(("Two-phase A-B-ground"@)[10] == 'A');
    assert(("Two-phase A-B"@)[10] == 'A');
    assert(("Two-phase B-C-ground"@)[10] == 'B');
    assert(("Two-phase B-C"@)[10] == 'B');
    assert(("Two-phase C-A-ground"@)[10] == 'C');
    assert(("Two-phase C-A"@)[10] == 'C');
}

/// A name that is the label of a fault selects that fault.
proof fn lemma_named_by_label(kind: FaultKind, name: Seq<char>)
    requires
        label_of(kind) == name,
    ensures
        kind_named(name) == kind,
{
    let k = choose|k: FaultKind| label_of(k) == name;
    lemma_labels_distinct(k, kind);
}

/// Selecting a fault by its own name selects that fault, so each fault
/// offered under its label is the fault that is applied.
pub proof fn lemma_label_selects_fault(kind: FaultKind)
    ensures
        kind_named(label_of(kind)) == kind,
{
    lemma_named_by_label(kind, label_of(kind));
}

/// Only the absence of a fault leaves every phase as it is: each fault of
/// the catalogue changes at least one phase.
pub proof fn lemma_only_no_fault_keeps_all(kind: FaultKind)
    ensures
        (phases_with(plan_of(kind), PhaseRule::Keep) == 3) <==> (kind == FaultKind::NoFault),
{
}

/// A fault without ground shorts at least two phases together, so that
/// shorted phases always meet at a common mean of two or three values.
pub proof fn lemma_shorts_join_several_phases(kind: FaultKind)
    ensures
        phases_with(plan_of(kind), PhaseRule::Short) != 1,
{
}

/// Every fault is offered for selection, exactly once.
pub proof fn lemma_catalogue_complete(kind: FaultKind)
    ensures
        catalogue().contains(kind),
        catalogue().no_duplicates(),
{
    match kind {
        FaultKind::NoFault => assert(catalogue()[0] == kind),
        FaultKind::MonophasicA => assert(catalogue()[1] == kind),
        FaultKind::MonophasicB => assert(catalogue()[2] == kind),
        FaultKind::MonophasicC => assert(catalogue()[3] == kind),
        FaultKind::TwoPhaseABGround => assert(catalogue()[4] == kind),
        FaultKind::TwoPhaseAB => assert(catalogue()[5] == kind),
        FaultKind::TwoPhaseBCGround => assert(catalogue()[6] == kind),
        FaultKind::TwoPhaseBC => assert(catalogue()[7] == kind),
        FaultKind::TwoPhaseCAGround => assert(catalogue()[8] == kind),
        FaultKind::TwoPhaseCA => assert(catalogue()[9] == kind),
        FaultKind::ThreePhaseGround => assert(catalogue()[10] == kind),
        FaultKind::ThreePhase => assert(catalogue()[11] == kind),
        FaultKind::SagA => assert(catalogue()[12] == kind),
        FaultKind::SagAB => assert(catalogue()[13] == kind),
        FaultKind::SagABC => assert(catalogue()[14] == kind),
    }
}

/// The rule that a plan gives the phase lettered `phase` ('A', 'B' or 'C').
pub open spec fn rule_of_phase(plan: FaultPlan, phase: char) -> PhaseRule {
    if phase == 'A' {
        plan.a
    } else if phase == 'B' {
        plan.b
    } else {
        plan.c
    }
}

/// Whether a fault name names the phase lettered `phase`: it holds the
/// phase's letter, or it is a three-phase fault, which names all three.
pub open spec fn name_names_phase(name: Seq<char>, phase: char) -> bool {
    name.contains(phase) || "Three-phase"@.is_prefix_of(name)
}

/// The rule that a fault name asks for on the phases it names: a sag for
/// "Sag ...", ground for a single-phase fault or one ending in "-ground",
/// and otherwise a short among the named phases.
pub open spec fn rule_named(name: Seq<char>) -> PhaseRule {
    if "Sag"@.is_prefix_of(name) {
        PhaseRule::Sag
    } else if "Monophasic"@.is_prefix_of(name) || "-ground"@.is_suffix_of(name) {
        PhaseRule::Ground
    } else {
        PhaseRule::Short
    }
}

/// A sequence that differs from `pre` at an index of both is not prefixed by it.
proof fn lemma_not_prefix(pre: Seq<char>, s: Seq<char>, i: int)
    requires
        0 <= i < pre.len(),
        pre.len() <= s.len(),
        pre[i] != s[i],
    ensures
        !pre.is_prefix_of(s),
{
    assert(s.subrange(0, pre.len() as int)[i] == s[i]);
}

/// A sequence whose tail differs from `suf` at some index is not suffixed by it.
proof fn lemma_not_suffix(suf: Seq<char>, s: Seq<char>, i: int)
    requires
        0 <= i < suf.len(),
        suf.len() <= s.len(),
        suf[i] != s[s.len() - suf.len() + i],
    ensures
        !suf.is_suffix_of(s),
{
    assert(s.subrange(s.len() - suf.len(), s.len() as int)[i] == s[s.len() - suf.len() + i]);
}

/// What a fault does is what its name says: every phase that the name
/// names follows the rule the name asks for, and every other phase keeps its
/// value.
pub proof fn lemma_plan_follows_label(kind: FaultKind, phase: char)
    requires
        phase == 'A' || phase == 'B' || phase == 'C',
    ensures
        name_names_phase(label_of(kind), phase) ==> rule_of_phase(plan_of(kind), phase)
            == rule_named(label_of(kind)),
        !name_names_phase(label_of(kind), phase) ==> rule_of_phase(plan_of(kind), phase)
            == PhaseRule::Keep,
{
    reveal_strlit("None");
    reveal_strlit("Monophasic A");
    reveal_strlit("Monophasic B");
    reveal_strlit("Monophasic C");
    reveal_strlit("Two-phase A-B-ground");
    reveal_strlit("Two-phase A-B");
    reveal_strlit("Two-phase B-C-ground");
    reveal_strlit("Two-phase B-C");
    reveal_strlit("Two-phase C-A-ground");
    reveal_strlit("Two-phase C-A");
    reveal_strlit("Three-phase-ground");
    reveal_strlit("Three-phase");
    reveal_strlit("Sag A");
    reveal_strlit("Sag AB");
    reveal_strlit("Sag ABC");
    reveal_strlit("Sag");
    reveal_strlit("Monophasic");
    reveal_strlit("-ground");
    match kind {
        FaultKind::NoFault => {
            assert(!"None"@.contains('A'));
            assert(!"None"@.contains('B'));
            assert(!"None"@.contains('C'));
            assert(!"Three-phase"@.is_prefix_of("None"@));
            lemma_not_prefix("Sag"@, "None"@, 0);
            assert(!"Monophasic"@.is_prefix_of("None"@));
            assert(!"-ground"@.is_suffix_of("None"@));
        },
        FaultKind::MonophasicA => {
            assert(("Monophasic A"@)[11] == 'A');
            assert(!"Monophasic A"@.contains('B'));
            assert(!"Monophasic A"@.contains('C'));
            lemma_not_prefix("Three-phase"@, "Monophasic A"@, 0);
            lemma_not_prefix("Sag"@, "Monophasic A"@, 0);
            assert("Monophasic"@.is_prefix_of("Monophasic A"@));
            lemma_not_suffix("-ground"@, "Monophasic A"@, 0);
        },
        FaultKind::MonophasicB => {
            assert(!"Monophasic B"@.contains('A'));
            assert(("Monophasic B"@)[11] == 'B');
            assert(!"Monophasic B"@.contains('C'));
            lemma_not_prefix("Three-phase"@, "Monophasic B"@, 0);
            lemma_not_prefix("Sag"@, "Monophasic B"@, 0);
            assert("Monophasic"@.is_prefix_of("Monophasic B"@));
            lemma_not_suffix("-ground"@, "Monophasic B"@, 0);
        },
        FaultKind::MonophasicC => {
            assert(!"Monophasic C"@.contains('A'));
            assert(!"Monophasic C"@.contains('B'));
            assert(("Monophasic C"@)[11] == 'C');
            lemma_not_prefix("Three-phase"@, "Monophasic C"@, 0);
            lemma_not_prefix("Sag"@, "Monophasic C"@, 0);
            assert("Monophasic"@.is_prefix_of("Monophasic C"@));
            lemma_not_suffix("-ground"@, "Monophasic C"@, 0);
        },
        FaultKind::TwoPhaseABGround => {
            assert(("Two-phase A-B-ground"@)[10] == 'A');
            assert(("Two-phase A-B-ground"@)[12] == 'B');
            assert(!"Two-phase A-B-ground"@.contains('C'));
            lemma_not_prefix("Three-phase"@, "Two-phase A-B-ground"@, 1);
            lemma_not_prefix("Sag"@, "Two-phase A-B-ground"@, 0);
            lemma_not_prefix("Monophasic"@, "Two-phase A-B-ground"@, 0);
            assert("-ground"@.is_suffix_of("Two-phase A-B-ground"@));
        },
        FaultKind::TwoPhaseAB => {
            assert(("Two-phase A-B"@)[10] == 'A');
            assert(("Two-phase A-B"@)[12] == 'B');
            assert(!"Two-phase A-B"@.contains('C'));
            lemma_not_prefix("Three-phase"@, "Two-phase A-B"@, 1);
            lemma_not_prefix("Sag"@, "Two-phase A-B"@, 0);
            lemma_not_prefix("Monophasic"@, "Two-phase A-B"@, 0);
            lemma_not_suffix("-ground"@, "Two-phase A-B"@, 0);
        },
        FaultKind::TwoPhaseBCGround => {
            assert(!"Two-phase B-C-ground"@.contains('A'));
            assert(("Two-phase B-C-ground"@)[10] == 'B');
            assert(("Two-phase B-C-ground"@)[12] == 'C');
            lemma_not_prefix("Three-phase"@, "Two-phase B-C-ground"@, 1);
            lemma_not_prefix("Sag"@, "Two-phase B-C-ground"@, 0);
            lemma_not_prefix("Monophasic"@, "Two-phase B-C-ground"@, 0);
            assert("-ground"@.is_suffix_of("Two-phase B-C-ground"@));
        },
        FaultKind::TwoPhaseBC => {
            assert(!"Two-phase B-C"@.contains('A'));
            assert(("Two-phase B-C"@)[10] == 'B');
            assert(("Two-phase B-C"@)[12] == 'C');
            lemma_not_prefix("Three-phase"@, "Two-phase B-C"@, 1);
            lemma_not_prefix("Sag"@, "Two-phase B-C"@, 0);
            lemma_not_prefix("Monophasic"@, "Two-phase B-C"@, 0);
            lemma_not_suffix("-ground"@, "Two-phase B-C"@, 0);
        },
        FaultKind::TwoPhaseCAGround => {
            assert(("Two-phase C-A-ground"@)[12] == 'A');
            assert(!"Two-phase C-A-ground"@.contains('B'));
            assert(("Two-phase C-A-ground"@)[10] == 'C');
            lemma_not_prefix("Three-phase"@, "Two-phase C-A-ground"@, 1);
            lemma_not_prefix("Sag"@, "Two-phase C-A-ground"@, 0);
            lemma_not_prefix("Monophasic"@, "Two-phase C-A-ground"@, 0);
            assert("-ground"@.is_suffix_of("Two-phase C-A-ground"@));
        },
        FaultKind::TwoPhaseCA => {
            assert(("Two-phase C-A"@)[12] == 'A');
            assert(!"Two-phase C-A"@.contains('B'));
            assert(("Two-phase C-A"@)[10] == 'C');
            lemma_not_prefix("Three-phase"@, "Two-phase C-A"@, 1);
            lemma_not_prefix("Sag"@, "Two-phase C-A"@, 0);
            lemma_not_prefix("Monophasic"@, "Two-phase C-A"@, 0);
            lemma_not_suffix("-ground"@, "Two-phase C-A"@, 0);
        },
        FaultKind::ThreePhaseGround => {
            assert(!"Three-phase-ground"@.contains('A'));
            assert(!"Three-phase-ground"@.contains('B'));
            assert(!"Three-phase-ground"@.contains('C'));
            assert("Three-phase"@.is_prefix_of("Three-phase-ground"@));
            lemma_not_prefix("Sag"@, "Three-phase-ground"@, 0);
            lemma_not_prefix("Monophasic"@, "Three-phase-ground"@, 0);
            assert("-ground"@.is_suffix_of("Three-phase-ground"@));
        },
        FaultKind::ThreePhase => {
            assert(!"Three-phase"@.contains('A'));
            assert(!"Three-phase"@.contains('B'));
            assert(!"Three-phase"@.contains('C'));
            assert("Three-phase"@.is_prefix_of("Three-phase"@));
            lemma_not_prefix("Sag"@, "Three-phase"@, 0);
            lemma_not_prefix("Monophasic"@, "Three-phase"@, 0);
            lemma_not_suffix("-ground"@, "Three-phase"@, 0);
        },
        FaultKind::SagA => {
            assert(("Sag A"@)[4] == 'A');
            assert(!"Sag A"@.contains('B'));
            assert(!"Sag A"@.contains('C'));
            assert(!"Three-phase"@.is_prefix_of("Sag A"@));
            assert("Sag"@.is_prefix_of("Sag A"@));
            assert(!"Monophasic"@.is_prefix_of("Sag A"@));
            assert(!"-ground"@.is_suffix_of("Sag A"@));
        },
        FaultKind::SagAB => {
            assert(("Sag AB"@)[4] == 'A');
            assert(("Sag AB"@)[5] == 'B');
            assert(!"Sag AB"@.contains('C'));
            assert(!"Three-phase"@.is_prefix_of("Sag AB"@));
            assert("Sag"@.is_prefix_of("Sag AB"@));
            assert(!"Monophasic"@.is_prefix_of("Sag AB"@));
            assert(!"-ground"@.is_suffix_of("Sag AB"@));
        },
        FaultKind::SagABC => {
            assert(("Sag ABC"@)[4] == 'A');
            assert(("Sag ABC"@)[5] == 'B');
            assert(("Sag ABC"@)[6] == 'C');
            assert(!"Three-phase"@.is_prefix_of("Sag ABC"@));
            assert("Sag"@.is_prefix_of("Sag ABC"@));
            assert(!"Monophasic"@.is_prefix_of("Sag ABC"@));
            lemma_not_suffix("-ground"@, "Sag ABC"@, 0);
        },
    }
}

/// The fault selected by a name does what the name says: when `name` is the
/// name of a fault, each phase it names follows the rule it asks for and the
/// other phases keep their value; any other name leaves every phase as it is.
pub proof fn lemma_selected_plan_follows_name(name: Seq<char>, phase: char)
    requires
        phase == 'A' || phase == 'B' || phase == 'C',
    ensures
        (exists|k: FaultKind| label_of(k) == name) && name_names_phase(name, phase) ==>
            rule_of_phase(plan_of(kind_named(name)), phase) == rule_named(name),
        (exists|k: FaultKind| label_of(k) == name) && !name_names_phase(name, phase) ==>
            rule_of_phase(plan_of(kind_named(name)), phase) == PhaseRule::Keep,
        !(exists|k: FaultKind| label_of(k) == name) ==>
            rule_of_phase(plan_of(kind_named(name)), phase) == PhaseRule::Keep,
{
    if exists|k: FaultKind| label_of(k) == name {
        let k = choose|k: FaultKind| label_of(k) == name;
        lemma_named_by_label(k, name);
        lemma_plan_follows_label(k, phase);
    }
}

/// The faults are offered under these names, in this order.
pub proof fn lemma_catalogue_names()
    ensures
        catalogue().map_values(|k: FaultKind| label_of(k)) == seq![
            "None"@,
            "Monophasic A"@,
            "Monophasic B"@,
            "Monophasic C"@,
            "Two-phase A-B-ground"@,
            "Two-phase A-B"@,
            "Two-phase B-C-ground"@,
            "Two-phase B-C"@,
            "Two-phase C-A-ground"@,
            "Two-phase C-A"@,
            "Three-phase-ground"@,
            "Three-phase"@,
            "Sag A"@,
            "Sag AB"@,
            "Sag ABC"@,
        ],
{
    assert(catalogue().map_values(|k: FaultKind| label_of(k)) =~= seq![
            "None"@,
            "Monophasic A"@,
            "Monophasic B"@,
            "Monophasic C"@,
            "Two-phase A-B-ground"@,
            "Two-phase A-B"@,
            "Two-phase B-C-ground"@,
            "Two-phase B-C"@,
            "Two-phase C-A-ground"@,
            "Two-phase C-A"@,
            "Three-phase-ground"@,
            "Three-phase"@,
            "Sag A"@,
            "Sag AB"@,
            "Sag ABC"@,
    ]);
}

/// Whether two strings hold the same characters.
fn same_text(a: &str, b: &str) -> (same: bool)
    ensures
        same == (a@ == b@),
{
    let x = a.to_owned();
    let y = b.to_owned();
    x == y
}

impl FaultKind {
    /// Every fault, in the order in which they are offered for selection.
    pub fn all() -> (kinds: Vec<FaultKind>)
        ensures
            kinds@ == catalogue(),
    {
        vec![
            FaultKind::NoFault,
            FaultKind::MonophasicA,
            FaultKind::MonophasicB,
            FaultKind::MonophasicC,
            FaultKind::TwoPhaseABGround,
            FaultKind::TwoPhaseAB,
            FaultKind::TwoPhaseBCGround,
            FaultKind::TwoPhaseBC,
            FaultKind::TwoPhaseCAGround,
            FaultKind::TwoPhaseCA,
            FaultKind::ThreePhaseGround,
            FaultKind::ThreePhase,
            FaultKind::SagA,
            FaultKind::SagAB,
            FaultKind::SagABC,
        ]
    }

    /// What this fault does to each phase.
    pub fn plan(&self) -> (plan: FaultPlan)
        ensures
            plan == plan_of(*self),
    {
        let k = PhaseRule::Keep;
        let g = PhaseRule::Ground;
        let s = PhaseRule::Short;
        let d = PhaseRule::Sag;
        match self {
            FaultKind::NoFault => FaultPlan { a: k, b: k, c: k },
            FaultKind::MonophasicA => FaultPlan { a: g, b: k, c: k },
            FaultKind::MonophasicB => FaultPlan { a: k, b: g, c: k },
            FaultKind::MonophasicC => FaultPlan { a: k, b: k, c: g },
            FaultKind::TwoPhaseABGround => FaultPlan { a: g, b: g, c: k },
            FaultKind::TwoPhaseAB => FaultPlan { a: s, b: s, c: k },
            FaultKind::TwoPhaseBCGround => FaultPlan { a: k, b: g, c: g },
            FaultKind::TwoPhaseBC => FaultPlan { a: k, b: s, c: s },
            FaultKind::TwoPhaseCAGround => FaultPlan { a: g, b: k, c: g },
            FaultKind::TwoPhaseCA => FaultPlan { a: s, b: k, c: s },
            FaultKind::ThreePhaseGround => FaultPlan { a: g, b: g, c: g },
            FaultKind::ThreePhase => FaultPlan { a: s, b: s, c: s },
            FaultKind::SagA => FaultPlan { a: d, b: k, c: k },
            FaultKind::SagAB => FaultPlan { a: d, b: d, c: k },
            FaultKind::SagABC => FaultPlan { a: d, b: d, c: d },
        }
    }

    /// The fault selected under `name`; a name that is not in the catalogue
    /// selects no fault.
    pub fn from_name(name: &str) -> (kind: FaultKind)
        ensures
            kind == kind_named(name@),
    {
        proof {
            if exists|k: FaultKind| label_of(k) == name@ {
                let k = choose|k: FaultKind| label_of(k) == name@;
                lemma_named_by_label(k, name@);
            }
        }
        if same_text(name, "Monophasic A") {
            proof {
                lemma_named_by_label(FaultKind::MonophasicA, name@);
            }
            FaultKind::MonophasicA
        } else if same_text(name, "Monophasic B") {
            proof {
                lemma_named_by_label(FaultKind::MonophasicB, name@);
            }
            FaultKind::MonophasicB
        } else if same_text(name, "Monophasic C") {
            proof {
                lemma_named_by_label(FaultKind::MonophasicC, name@);
            }
            FaultKind::MonophasicC
        } else if same_text(name, "Two-phase A-B-ground") {
            proof {
                lemma_named_by_label(FaultKind::TwoPhaseABGround, name@);
            }
            FaultKind::TwoPhaseABGround
        } else if same_text(name, "Two-phase A-B") {
            proof {
                lemma_named_by_label(FaultKind::TwoPhaseAB, name@);
            }
            FaultKind::TwoPhaseAB
        } else if same_text(name, "Two-phase B-C-ground") {
            proof {
                lemma_named_by_label(FaultKind::TwoPhaseBCGround, name@);
            }
            FaultKind::TwoPhaseBCGround
        } else if same_text(name, "Two-phase B-C") {
            proof {
                lemma_named_by_label(FaultKind::TwoPhaseBC, name@);
            }
            FaultKind::TwoPhaseBC
        } else if same_text(name, "Two-phase C-A-ground") {
            proof {
                lemma_named_by_label(FaultKind::TwoPhaseCAGround, name@);
            }
            FaultKind::TwoPhaseCAGround
        } else if same_text(name, "Two-phase C-A") {
            proof {
                lemma_named_by_label(FaultKind::TwoPhaseCA, name@);
            }
            FaultKind::TwoPhaseCA
        } else if same_text(name, "Three-phase-ground") {
            proof {
                lemma_named_by_label(FaultKind::ThreePhaseGround, name@);
            }
            FaultKind::ThreePhaseGround
        } else if same_text(name, "Three-phase") {
            proof {
                lemma_named_by_label(FaultKind::ThreePhase, name@);
            }
            FaultKind::ThreePhase
        } else if same_text(name, "Sag A") {
            proof {
                lemma_named_by_label(FaultKind::SagA, name@);
            }
            FaultKind::SagA
        } else if same_text(name, "Sag AB") {
            proof {
                lemma_named_by_label(FaultKind::SagAB, name@);
            }
            FaultKind::SagAB
        } else if same_text(name, "Sag ABC") {
            proof {
                lemma_named_by_label(FaultKind::SagABC, name@);
            }
            FaultKind::SagABC
        } else {
            FaultKind::NoFault
        }
    }

    /// The name of this fault.
    pub fn label(&self) -> (name: &'static str)
        ensures
            name@ == label_of(*self),
    {
        match self {
            FaultKind::NoFault => "None",
            FaultKind::MonophasicA => "Monophasic A",
            FaultKind::MonophasicB => "Monophasic B",
            FaultKind::MonophasicC => "Monophasic C",
            FaultKind::TwoPhaseABGround => "Two-phase A-B-ground",
            FaultKind::TwoPhaseAB => "Two-phase A-B",
            FaultKind::TwoPhaseBCGround => "Two-phase B-C-ground",
            FaultKind::TwoPhaseBC => "Two-phase B-C",
            FaultKind::TwoPhaseCAGround => "Two-phase C-A-ground",
            FaultKind::TwoPhaseCA => "Two-phase C-A",
            FaultKind::ThreePhaseGround => "Three-phase-ground",
            FaultKind::ThreePhase => "Three-phase",
            FaultKind::SagA => "Sag A",
            FaultKind::SagAB => "Sag AB",
            FaultKind::SagABC => "Sag ABC",
        }
    }
}

} // verus!
