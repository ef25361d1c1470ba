//! End-to-end scenarios.  The test harness plays the driver's part: it does
//! the floating-point arithmetic of the energy, the gradient and the
//! leapfrog updates over the state held by the verified library, and feeds
//! the results into the sampler kernel as events.
use marker_hmc::genotype::GenotypeMatrix;
use marker_hmc::model::MarkerGroup;
use marker_hmc::sampler::{HmcKernel, KernelAction, KernelEvent};
use rand::rngs::StdRng;
use rand::{Rng, SeedableRng};

fn activation(x: f32) -> f32 {
    x.tanh()
}

fn activation_derivative(x: f32) -> f32 {
    1.0 - x.tanh().powi(2)
}

/// X . w over the packed genotype matrix.
fn right_multiply(m: &GenotypeMatrix, w: &[f32]) -> Vec<f32> {
    (0..m.rows())
        .map(|i| (0..m.cols()).map(|j| m.get(i, j) as f32 * w[j]).sum())
        .collect()
}

/// X^T . v over the packed genotype matrix.
fn left_multiply(m: &GenotypeMatrix, v: &[f32]) -> Vec<f32> {
    (0..m.cols())
        .map(|j| (0..m.rows()).map(|i| m.get(i, j) as f32 * v[i]).sum())
        .collect()
}

/// log pi(theta) = -U(theta), the negative posterior energy up to constants.
fn log_density(g: &MarkerGroup<f32>, theta: &[f32]) -> f32 {
    let d = g.dim;
    let b1 = theta[0];
    let w1 = &theta[1..=d];
    let w2 = theta[d + 1];
    let x = g.marker_data.as_ref().unwrap();
    let z: Vec<f32> = right_multiply(x, w1).iter().map(|zi| zi + b1).collect();
    let y_hat: Vec<f32> = z.iter().map(|&zi| w2 * activation(zi)).collect();
    let rss: f32 = g
        .residual
        .iter()
        .zip(y_hat.iter())
        .map(|(r, y)| (r - y) * (r - y))
        .sum();
    let w1_sq: f32 = w1.iter().map(|v| v * v).sum();
    -g.lambda_b1 / 2.0 * b1 * b1 - g.lambda_w1 / 2.0 * w1_sq - g.lambda_w2 / 2.0 * w2 * w2
        - g.lambda_e / 2.0 * rss
}

/// The gradient of log pi(theta), in the same flat layout as theta.
fn log_density_gradient(g: &MarkerGroup<f32>, theta: &[f32]) -> Vec<f32> {
    let d = g.dim;
    let b1 = theta[0];
    let w1 = &theta[1..=d];
    let w2 = theta[d + 1];
    let x = g.marker_data.as_ref().unwrap();
    let z: Vec<f32> = right_multiply(x, w1).iter().map(|zi| zi + b1).collect();
    let a: Vec<f32> = z.iter().map(|&zi| activation(zi)).collect();
    let h_prime: Vec<f32> = z.iter().map(|&zi| activation_derivative(zi)).collect();
    let s: Vec<f32> = a
        .iter()
        .zip(g.residual.iter())
        .map(|(ai, ri)| -g.lambda_e * (w2 * ai - ri))
        .collect();
    let s_h: Vec<f32> = s.iter().zip(h_prime.iter()).map(|(si, hi)| si * hi).collect();
    let xt_sh = left_multiply(x, &s_h);
    let mut grad = Vec::with_capacity(d + 2);
    grad.push(-g.lambda_b1 * b1 + w2 * s_h.iter().sum::<f32>());
    for j in 0..d {
        grad.push(-g.lambda_w1 * w1[j] + w2 * xt_sh[j]);
    }
    grad.push(-g.lambda_w2 * w2 + s.iter().zip(a.iter()).map(|(si, ai)| si * ai).sum::<f32>());
    grad
}

/// One leapfrog step: half-kick, drift, half-kick.
fn leapfrog(g: &MarkerGroup<f32>, q: &[f32], p: &[f32], eps: f32) -> (Vec<f32>, Vec<f32>) {
    let grad = log_density_gradient(g, q);
    let mut p1: Vec<f32> = p.iter().zip(grad.iter()).map(|(pi, gi)| pi + eps / 2.0 * gi).collect();
    let q1: Vec<f32> = q.iter().zip(p1.iter()).map(|(qi, pi)| qi + eps * pi).collect();
    let grad1 = log_density_gradient(g, &q1);
    for (pi, gi) in p1.iter_mut().zip(grad1.iter()) {
        *pi += eps / 2.0 * gi;
    }
    (q1, p1)
}

/// log rho(p) = -1/2 ||p||^2 up to the constant that cancels in the ratio.
fn momentum_log_density(p: &[f32]) -> f32 {
    -0.5 * p.iter().map(|v| v * v).sum::<f32>()
}

fn neg_hamiltonian(g: &MarkerGroup<f32>, q: &[f32], p: &[f32]) -> f32 {
    log_density(g, q) + momentum_log_density(p)
}

fn acceptance_probability(
    g: &MarkerGroup<f32>,
    q_new: &[f32],
    p_new: &[f32],
    q0: &[f32],
    p0: &[f32],
) -> f32 {
    let log_ratio = neg_hamiltonian(g, q_new, p_new) - neg_hamiltonian(g, q0, p0);
    if log_ratio >= 0.0 {
        1.0
    } else {
        log_ratio.exp()
    }
}

fn standard_normal(rng: &mut StdRng) -> f32 {
    let u1: f32 = rng.gen_range(f32::EPSILON..1.0);
    let u2: f32 = rng.gen_range(0.0..1.0);
    (-2.0 * u1.ln()).sqrt() * (2.0 * std::f32::consts::PI * u2).cos()
}

/// One draw by the repeat-until-accept HMC policy, driven by the kernel.
fn sample_params(g: &mut MarkerGroup<f32>, eps: f32, l: usize, rng: &mut StdRng) -> Vec<f32> {
    let start = g.param_vec();
    let dim = start.len();
    let mut kernel = HmcKernel::new(start, l, 1000);
    let mut action = KernelAction::DrawMomentum;
    loop {
        match action {
            KernelAction::DrawMomentum | KernelAction::ReportDivergence => {
                let p: Vec<f32> = (0..dim).map(|_| standard_normal(rng)).collect();
                action = kernel.step(KernelEvent::MomentumDrawn { momentum: p });
            }
            KernelAction::ComputeStep => {
                let (q, p) = leapfrog(g, kernel.position(), kernel.momentum(), eps);
                if q.iter().chain(p.iter()).all(|v| v.is_finite()) {
                    action = kernel.step(KernelEvent::StepComputed { position: q, momentum: p });
                } else {
                    action = kernel.step(KernelEvent::StepDiverged);
                }
            }
            KernelAction::Evaluate => {
                let prob = acceptance_probability(
                    g,
                    kernel.position(),
                    kernel.momentum(),
                    kernel.start_position(),
                    kernel.start_momentum(),
                );
                let u: f32 = rng.gen_range(0.0..1.0);
                action = kernel.step(KernelEvent::Decision { accepted: u < prob });
            }
            KernelAction::AcceptSample => {
                let theta = kernel.position().clone();
                g.set_params(&theta);
                return theta;
            }
        }
    }
}

fn three_by_two_group(b1: f32, w1: Vec<f32>, w2: f32) -> MarkerGroup<f32> {
    // X = [[0,0],[1,1],[2,2]]
    let cols = vec![vec![0u8, 1, 2], vec![0u8, 1, 2]];
    let x = GenotypeMatrix::from_columns(3, &cols);
    let mut g = MarkerGroup::new(vec![0.0, 1.0, 2.0], w1, b1, w2, 2, 1.0);
    g.load_marker_data(x);
    g
}

#[test]
fn test_zero_noise_precision_energy() {
    // with lambda_e = 0 only the priors contribute:
    // U = 0.5*1 + 0.5*2 + 0.5*1 = 2, so log pi = -2
    let mut g = three_by_two_group(1.0, vec![1.0, 1.0], 1.0);
    g.set_precisions(1.0, 1.0, 1.0, 0.0);
    let theta = g.param_vec();
    let ld = log_density(&g, &theta);
    assert!((ld + 2.0).abs() < 1e-6, "log density {ld}");
}

#[test]
fn test_forward_pass_and_w2_gradient() {
    // b1 = 0, w1 = [1,1], w2 = 1 gives z = [0,2,4] and y_hat = tanh(z);
    // with r = y_hat the residual term vanishes and d(log pi)/dw2 = -w2
    let mut g = three_by_two_group(0.0, vec![1.0, 1.0], 1.0);
    let z = [0.0f32, 2.0, 4.0];
    let a: Vec<f32> = z.iter().map(|&v| v.tanh()).collect();
    g.residual = a.clone();
    let theta = g.param_vec();
    let x = g.marker_data.as_ref().unwrap();
    let zz: Vec<f32> = right_multiply(x, &[1.0, 1.0]);
    assert_eq!(zz, vec![0.0, 2.0, 4.0]);
    // rss = 0: the prior terms are all that is left of the energy
    let ld = log_density(&g, &theta);
    let prior_only = -0.5 * (0.0 + 2.0 + 1.0);
    assert!((ld - prior_only).abs() < 1e-6);
    let grad = log_density_gradient(&g, &theta);
    assert!((grad[g.dim + 1] + 1.0).abs() < 1e-6, "dw2 {}", grad[g.dim + 1]);
}

#[test]
fn test_gradient_matches_finite_differences() {
    // fixed 5 x 4 genotypes and a fixed theta
    let cols = vec![
        vec![0u8, 2, 1, 0, 2],
        vec![1u8, 1, 0, 2, 0],
        vec![2u8, 0, 2, 1, 1],
        vec![0u8, 1, 1, 2, 2],
    ];
    let x = GenotypeMatrix::from_columns(5, &cols);
    let mut g = MarkerGroup::new(
        vec![0.3, -0.7, 1.1, 0.2, -0.4],
        vec![0.25, -0.5, 0.75, -0.25],
        0.4,
        -0.6,
        4,
        1.0,
    );
    g.load_marker_data(x);
    g.set_precisions(1.0, 2.0, 0.5, 1.5);
    let theta = g.param_vec();
    let grad = log_density_gradient(&g, &theta);
    let h = 1e-3f32;
    for k in 0..theta.len() {
        let mut plus = theta.clone();
        plus[k] += h;
        let mut minus = theta.clone();
        minus[k] -= h;
        let fd = (log_density(&g, &plus) - log_density(&g, &minus)) / (2.0 * h);
        let denom = grad[k].abs().max(1e-2);
        assert!(
            (fd - grad[k]).abs() / denom < 1e-3 * 10.0,
            "coordinate {k}: analytic {} finite-difference {fd}",
            grad[k]
        );
    }
}

#[test]
fn test_zero_noise_gradient_is_prior_gradient() {
    // as lambda_e goes to 0 the gradient reduces to the prior pull at every theta
    let mut g = three_by_two_group(0.8, vec![-0.3, 1.2], -0.9);
    g.set_precisions(2.0, 3.0, 0.5, 0.0);
    for theta in [
        vec![0.8f32, -0.3, 1.2, -0.9],
        vec![-1.0f32, 0.0, 2.0, 0.25],
        vec![0.0f32, 0.0, 0.0, 0.0],
    ] {
        let grad = log_density_gradient(&g, &theta);
        assert_eq!(grad[0], -3.0 * theta[0]);
        assert_eq!(grad[1], -2.0 * theta[1]);
        assert_eq!(grad[2], -2.0 * theta[2]);
        assert_eq!(grad[3], -0.5 * theta[3]);
    }
}

#[test]
fn test_leapfrog_is_reversible() {
    // forward L steps, negate the momentum, L more steps: back to the start
    let g = three_by_two_group(0.5, vec![0.1, -0.2], 0.3);
    let q0 = vec![0.5f32, 0.1, -0.2, 0.3];
    let p0 = vec![0.7f32, -0.4, 0.2, 0.9];
    let (eps, l) = (0.01f32, 100);
    let mut q = q0.clone();
    let mut p = p0.clone();
    for _ in 0..l {
        let (qn, pn) = leapfrog(&g, &q, &p, eps);
        q = qn;
        p = pn;
    }
    for v in p.iter_mut() {
        *v = -*v;
    }
    for _ in 0..l {
        let (qn, pn) = leapfrog(&g, &q, &p, eps);
        q = qn;
        p = pn;
    }
    for k in 0..q.len() {
        assert!((q[k] - q0[k]).abs() < 1e-5, "position {k}: {} vs {}", q[k], q0[k]);
        assert!((p[k] + p0[k]).abs() < 1e-5, "momentum {k}: {} vs {}", p[k], p0[k]);
    }
}

#[test]
fn test_energy_error_shrinks_with_step_size() {
    // over a fixed trajectory length, halving eps (doubling L) divides the
    // energy error by about four; allow six-fold slack
    let g = three_by_two_group(0.5, vec![0.1, -0.2], 0.3);
    let q0 = vec![0.5f32, 0.1, -0.2, 0.3];
    let p0 = vec![0.7f32, -0.4, 0.2, 0.9];
    let run = |eps: f32, l: usize| -> f32 {
        let mut q = q0.clone();
        let mut p = p0.clone();
        for _ in 0..l {
            let (qn, pn) = leapfrog(&g, &q, &p, eps);
            q = qn;
            p = pn;
        }
        (neg_hamiltonian(&g, &q, &p) - neg_hamiltonian(&g, &q0, &p0)).abs()
    };
    let coarse = run(0.2, 25);
    let fine = run(0.1, 50);
    assert!(coarse <= 6.0 * fine, "coarse {coarse} fine {fine}");
    assert!(fine < coarse, "fine {fine} coarse {coarse}");
}

#[test]
fn test_acceptance_probability_in_unit_interval_and_one_at_zero_step() {
    let g = three_by_two_group(0.5, vec![0.1, -0.2], 0.3);
    let q0 = vec![0.5f32, 0.1, -0.2, 0.3];
    let p0 = vec![0.7f32, -0.4, 0.2, 0.9];
    let mut q = q0.clone();
    let mut p = p0.clone();
    for _ in 0..10 {
        let (qn, pn) = leapfrog(&g, &q, &p, 0.5);
        q = qn;
        p = pn;
        let prob = acceptance_probability(&g, &q, &p, &q0, &p0);
        assert!((0.0..=1.0).contains(&prob), "probability {prob}");
    }
    // eps = 0 moves nothing, so the ratio is exactly one
    let (qz, pz) = leapfrog(&g, &q0, &p0, 0.0);
    assert_eq!(qz, q0);
    assert_eq!(pz, p0);
    assert_eq!(acceptance_probability(&g, &qz, &pz, &q0, &p0), 1.0);
}

#[test]
fn test_identically_seeded_samplers_agree_bitwise() {
    let mut g1 = three_by_two_group(1.0, vec![1.0, 1.0], 1.0);
    let mut g2 = three_by_two_group(1.0, vec![1.0, 1.0], 1.0);
    let mut rng1 = StdRng::seed_from_u64(7);
    let mut rng2 = StdRng::seed_from_u64(7);
    for _ in 0..100 {
        let t1 = sample_params(&mut g1, 0.05, 20, &mut rng1);
        let t2 = sample_params(&mut g2, 0.05, 20, &mut rng2);
        let b1: Vec<u32> = t1.iter().map(|v| v.to_bits()).collect();
        let b2: Vec<u32> = t2.iter().map(|v| v.to_bits()).collect();
        assert_eq!(b1, b2);
    }
}

#[test]
fn test_gaussian_target_variances() {
    // with lambda_e = 0 the posterior is an isotropic Gaussian with
    // precisions (lambda_b1, lambda_w1, lambda_w1, lambda_w2): the
    // per-coordinate sample variances recover 1/lambda within 5%
    let mut g = three_by_two_group(0.0, vec![0.0, 0.0], 0.0);
    g.set_precisions(1.0, 1.0, 1.0, 0.0);
    let mut rng = StdRng::seed_from_u64(1234);
    let draws = 10_000;
    let dim = 4;
    let mut sum = vec![0.0f64; dim];
    let mut sum_sq = vec![0.0f64; dim];
    for _ in 0..draws {
        let t = sample_params(&mut g, 0.6, 12, &mut rng);
        for k in 0..dim {
            sum[k] += t[k] as f64;
            sum_sq[k] += (t[k] as f64) * (t[k] as f64);
        }
    }
    for k in 0..dim {
        let mean = sum[k] / draws as f64;
        let var = sum_sq[k] / draws as f64 - mean * mean;
        assert!((var - 1.0).abs() < 0.05, "coordinate {k}: variance {var}");
    }
}
