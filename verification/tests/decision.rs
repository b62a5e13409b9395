use claim_check::decision::render_decision;

// The three fixed-logits scenarios of the decision policy, after the
// floating-point softmax has been applied to the logit pairs:
//
//   logits [2.0, 0.5]  -> prob_claim ~ 0.1824 -> "IGNORE|18.2"
//   logits [0.0, 0.0]  -> prob_claim = 0.5    -> "IGNORE|50.0"
//   logits [-1.0, 3.0] -> prob_claim ~ 0.9820 -> "CLAIM|98.2"
//
// The softmax itself is exercised below by recomputing it in floating
// point exactly as the scoring step does, and the verified renderer must
// reproduce the wire strings.

fn softmax_tenths(score_irrelevant: f32, score_claim: f32) -> (bool, u32) {
    let max_val = if score_irrelevant > score_claim { score_irrelevant } else { score_claim };
    let exp_irr = (score_irrelevant - max_val).exp();
    let exp_claim = (score_claim - max_val).exp();
    let prob_claim = exp_claim / (exp_irr + exp_claim);
    let percentage = prob_claim * 100.0;
    let formatted = format!("{:.1}", percentage);
    let mut tenths: u32 = 0;
    for b in formatted.bytes() {
        if b.is_ascii_digit() {
            tenths = tenths * 10 + (b - b'0') as u32;
        }
    }
    (prob_claim > 0.50, tenths)
}

#[test]
fn policy_clear_irrelevant() {
    let (claim, tenths) = softmax_tenths(2.0, 0.5);
    assert!(!claim);
    assert_eq!(tenths, 182);
    assert_eq!(render_decision(claim, tenths), "IGNORE|18.2");
}

#[test]
fn policy_boundary_is_ignore() {
    // Equal logits give exactly one half; the rule is strictly greater
    // than, so the label must stay IGNORE at 50.0.
    let (claim, tenths) = softmax_tenths(0.0, 0.0);
    assert!(!claim);
    assert_eq!(tenths, 500);
    assert_eq!(render_decision(claim, tenths), "IGNORE|50.0");
}

#[test]
fn policy_clear_claim() {
    let (claim, tenths) = softmax_tenths(-1.0, 3.0);
    assert!(claim);
    assert_eq!(tenths, 982);
    assert_eq!(render_decision(claim, tenths), "CLAIM|98.2");
}

#[test]
fn render_zero() {
    assert_eq!(render_decision(false, 0), "IGNORE|0.0");
}

#[test]
fn render_full_confidence() {
    assert_eq!(render_decision(true, 1000), "CLAIM|100.0");
}

#[test]
fn render_single_digit_whole() {
    assert_eq!(render_decision(false, 57), "IGNORE|5.7");
}

#[test]
fn render_two_digit_whole() {
    assert_eq!(render_decision(true, 305), "CLAIM|30.5");
}

#[test]
fn render_tenth_boundaries() {
    assert_eq!(render_decision(false, 9), "IGNORE|0.9");
    assert_eq!(render_decision(false, 10), "IGNORE|1.0");
    assert_eq!(render_decision(false, 100), "IGNORE|10.0");
    assert_eq!(render_decision(true, 999), "CLAIM|99.9");
}
