use clarke_park::fault::{FaultKind, FaultPlan, PhaseRule};

fn shorted(plan: &FaultPlan) -> usize {
    [plan.a, plan.b, plan.c].iter().filter(|r| **r == PhaseRule::Short).count()
}

#[test]
fn every_label_selects_its_fault() {
    for kind in FaultKind::all() {
        assert_eq!(FaultKind::from_name(kind.label()), kind);
    }
}

#[test]
fn catalogue_order_and_names() {
    let names: Vec<&str> = FaultKind::all().iter().map(|k| k.label()).collect();
    assert_eq!(
        names,
        vec![
            "None",
            "Monophasic A",
            "Monophasic B",
            "Monophasic C",
            "Two-phase A-B-ground",
            "Two-phase A-B",
            "Two-phase B-C-ground",
            "Two-phase B-C",
            "Two-phase C-A-ground",
            "Two-phase C-A",
            "Three-phase-ground",
            "Three-phase",
            "Sag A",
            "Sag AB",
            "Sag ABC",
        ]
    );
}

#[test]
fn unknown_names_select_no_fault() {
    assert_eq!(FaultKind::from_name("None"), FaultKind::NoFault);
    assert_eq!(FaultKind::from_name(""), FaultKind::NoFault);
    assert_eq!(FaultKind::from_name("Sag"), FaultKind::NoFault);
    assert_eq!(FaultKind::from_name("monophasic a"), FaultKind::NoFault);
    assert_eq!(FaultKind::from_name("Two-phase A-B-ground "), FaultKind::NoFault);
}

#[test]
fn similar_names_are_told_apart() {
    assert_eq!(FaultKind::from_name("Two-phase A-B"), FaultKind::TwoPhaseAB);
    assert_eq!(FaultKind::from_name("Two-phase A-B-ground"), FaultKind::TwoPhaseABGround);
    assert_eq!(FaultKind::from_name("Three-phase"), FaultKind::ThreePhase);
    assert_eq!(FaultKind::from_name("Three-phase-ground"), FaultKind::ThreePhaseGround);
    assert_eq!(FaultKind::from_name("Sag A"), FaultKind::SagA);
    assert_eq!(FaultKind::from_name("Sag AB"), FaultKind::SagAB);
    assert_eq!(FaultKind::from_name("Sag ABC"), FaultKind::SagABC);
    assert_eq!(FaultKind::from_name("Monophasic C"), FaultKind::MonophasicC);
}

#[test]
fn plans_of_single_phase_and_grounded_faults() {
    let k = PhaseRule::Keep;
    let g = PhaseRule::Ground;
    assert_eq!(FaultKind::MonophasicA.plan(), FaultPlan { a: g, b: k, c: k });
    assert_eq!(FaultKind::MonophasicB.plan(), FaultPlan { a: k, b: g, c: k });
    assert_eq!(FaultKind::MonophasicC.plan(), FaultPlan { a: k, b: k, c: g });
    assert_eq!(FaultKind::TwoPhaseCAGround.plan(), FaultPlan { a: g, b: k, c: g });
    assert_eq!(FaultKind::ThreePhaseGround.plan(), FaultPlan { a: g, b: g, c: g });
}

#[test]
fn plans_of_ungrounded_and_sag_faults() {
    let k = PhaseRule::Keep;
    let s = PhaseRule::Short;
    let d = PhaseRule::Sag;
    assert_eq!(FaultKind::TwoPhaseBC.plan(), FaultPlan { a: k, b: s, c: s });
    assert_eq!(FaultKind::TwoPhaseCA.plan(), FaultPlan { a: s, b: k, c: s });
    assert_eq!(FaultKind::ThreePhase.plan(), FaultPlan { a: s, b: s, c: s });
    assert_eq!(FaultKind::SagAB.plan(), FaultPlan { a: d, b: d, c: k });
    assert_eq!(FaultKind::NoFault.plan(), FaultPlan { a: k, b: k, c: k });
}

#[test]
fn shorted_phases_are_never_alone() {
    for kind in FaultKind::all() {
        assert_ne!(shorted(&kind.plan()), 1);
    }
    assert_eq!(shorted(&FaultKind::TwoPhaseAB.plan()), 2);
    assert_eq!(shorted(&FaultKind::ThreePhase.plan()), 3);
}

#[test]
fn only_no_fault_keeps_every_phase() {
    for kind in FaultKind::all() {
        let p = kind.plan();
        let all_kept = p.a == PhaseRule::Keep && p.b == PhaseRule::Keep && p.c == PhaseRule::Keep;
        assert_eq!(all_kept, kind == FaultKind::NoFault);
    }
}

#[test]
fn catalogue_lists_each_fault_once() {
    let all = FaultKind::all();
    assert_eq!(all.len(), 15);
    for i in 0..all.len() {
        for j in (i + 1)..all.len() {
            assert_ne!(all[i], all[j]);
        }
    }
}
