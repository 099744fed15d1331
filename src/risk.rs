//! Risk coordinates, the corridor ramp and the aggregated residual.
use vstd::prelude::*;

verus! {

/// Ticks per unit of every normalized quantity (micro-units).
pub const SCALE: u64 = 1_000_000;

/// The corridor ramp: 0 at or below `safe`, one full unit at or above `hard`,
/// linear in between (rounded down to a tick).
pub open spec fn ramp_spec(x: int, safe: int, hard: int) -> int {
    if x <= safe {
        0
    } else if x >= hard {
        SCALE as int
    } else {
        (x - safe) * (SCALE as int) / (hard - safe)
    }
}

proof fn lemma_ramp_mid_bounds(a: int, d: int)
    requires
        0 < a < d,
    ensures
        0 <= a * (SCALE as int) / d <= SCALE as int,
{
    assert(0 <= a * 1_000_000int) by (nonlinear_arith)
        requires
            0 < a,
    ;
    assert(a * 1_000_000int / d <= 1_000_000int) by (nonlinear_arith)
        requires
            0 < a < d,
    ;
}

/// Maps a raw measurement onto its corridor, in ticks.
pub fn ramp(x: u64, safe: u64, hard: u64) -> (r: u64)
    ensures
        r as int == ramp_spec(x as int, safe as int, hard as int),
        r <= SCALE,
{
    if x <= safe {
        0
    } else if x >= hard {
        SCALE
    } else {
        let a: u128 = (x - safe) as u128;
        let d: u128 = (hard - safe) as u128;
        proof {
            lemma_ramp_mid_bounds(a as int, d as int);
        }
        let q: u128 = a * (SCALE as u128) / d;
        q as u64
    }
}

/// The ramp gives nothing at or below `safe` and a full unit at or above `hard`
/// (when `hard` lies above `safe`), and it never decreases as `x` grows.
pub proof fn lemma_ramp_laws(x: int, y: int, safe: int, hard: int)
    ensures
        x <= safe ==> ramp_spec(x, safe, hard) == 0,
        x >= hard && safe < hard ==> ramp_spec(x, safe, hard) == SCALE as int,
        x <= y ==> ramp_spec(x, safe, hard) <= ramp_spec(y, safe, hard),
        0 <= ramp_spec(x, safe, hard) <= SCALE as int,
{
    if safe < x && x < hard {
        lemma_ramp_mid_bounds(x - safe, hard - safe);
    }
    if safe < y && y < hard {
        lemma_ramp_mid_bounds(y - safe, hard - safe);
    }
    if x <= y && safe < x && y < hard {
        let d = hard - safe;
        assert((x - safe) * (SCALE as int) <= (y - safe) * (SCALE as int)) by (nonlinear_arith)
            requires
                x <= y,
        ;
        vstd::arithmetic::div_mod::lemma_div_is_ordered(
            (x - safe) * (SCALE as int),
            (y - safe) * (SCALE as int),
            d,
        );
    }
}


/// One normalized risk axis.
pub struct RiskCoord {
    /// Stable identifier, unique within a residual.
    pub varid: String,
    /// Current normalized measurement, in ticks (not clamped).
    pub value: u64,
    pub safe: u64,
    pub gold: u64,
    pub hard: u64,
    /// Non-negative contribution weight, in ticks.
    pub weight: u64,
    /// Correlation id of the stability channel (informational).
    pub lyapchannel: u32,
}

/// Why a risk coordinate or a residual was refused at construction.
#[derive(Debug, PartialEq, Eq, Structural)]
pub enum ResidualError {
    /// The coordinate at `index` violates `safe <= gold <= hard`.
    InvalidThresholds { index: usize },
    /// The weights add up to more than `u64::MAX` ticks.
    WeightOverflow,
}

impl RiskCoord {
    pub open spec fn thresholds_ordered(&self) -> bool {
        self.safe <= self.gold <= self.hard
    }

    /// What this coordinate feeds into the residual, before weighting.
    pub open spec fn contribution_spec(&self) -> int {
        ramp_spec(self.value as int, self.safe as int, self.hard as int)
    }

    /// Builds a coordinate, refusing thresholds that are out of order.
    pub fn new(
        varid: String,
        value: u64,
        safe: u64,
        gold: u64,
        hard: u64,
        weight: u64,
        lyapchannel: u32,
    ) -> (r: Result<RiskCoord, ResidualError>)
        ensures
            r is Ok <==> safe <= gold <= hard,
            r is Err ==> r == Err::<RiskCoord, ResidualError>(
                ResidualError::InvalidThresholds { index: 0 },
            ),
            r matches Ok(c) ==> c.varid@ == varid@ && c.value == value && c.safe == safe
                && c.gold == gold && c.hard == hard && c.weight == weight && c.lyapchannel
                == lyapchannel,
    {
        if safe <= gold && gold <= hard {
            Ok(RiskCoord { varid, value, safe, gold, hard, weight, lyapchannel })
        } else {
            Err(ResidualError::InvalidThresholds { index: 0 })
        }
    }

    /// The ramped value of this coordinate, in ticks.
    pub fn contribution(&self) -> (r: u64)
        ensures
            r as int == self.contribution_spec(),
            r <= SCALE,
    {
        ramp(self.value, self.safe, self.hard)
    }
}

/// The point of a coordinate that is ramped: its value, or its gold threshold.
pub open spec fn ramp_point(c: RiskCoord, at_gold: bool) -> int {
    if at_gold {
        c.gold as int
    } else {
        c.value as int
    }
}

/// Sum of `w[i] * ramp(point of rx[i])` over the first `n` coordinates.
pub open spec fn weighted_ramp_sum(rx: Seq<RiskCoord>, w: Seq<u64>, n: nat, at_gold: bool) -> int
    decreases n,
{
    if n == 0 {
        0
    } else {
        let c = rx[n - 1];
        weighted_ramp_sum(rx, w, (n - 1) as nat, at_gold) + w[n - 1] * ramp_spec(
            ramp_point(c, at_gold),
            c.safe as int,
            c.hard as int,
        )
    }
}

/// Sum of the first `n` weights.
pub open spec fn weight_total(w: Seq<u64>, n: nat) -> int
    decreases n,
{
    if n == 0 {
        0
    } else {
        weight_total(w, (n - 1) as nat) + w[n - 1]
    }
}

/// The aggregate `sum(w[i] * ramp(rx[i])) / SCALE`, in ticks.
pub open spec fn aggregate(rx: Seq<RiskCoord>, w: Seq<u64>, at_gold: bool) -> int {
    weighted_ramp_sum(rx, w, rx.len(), at_gold) / (SCALE as int)
}

proof fn lemma_weight_total_monotonic(w: Seq<u64>, i: nat, n: nat)
    requires
        i <= n <= w.len(),
    ensures
        0 <= weight_total(w, i) <= weight_total(w, n),
    decreases n,
{
    if i < n {
        lemma_weight_total_monotonic(w, i, (n - 1) as nat);
    } else if n > 0 {
        lemma_weight_total_monotonic(w, (n - 1) as nat, (n - 1) as nat);
    }
}

proof fn lemma_weighted_sum_bound(rx: Seq<RiskCoord>, w: Seq<u64>, n: nat, at_gold: bool)
    requires
        n <= rx.len(),
        n <= w.len(),
    ensures
        0 <= weighted_ramp_sum(rx, w, n, at_gold) <= weight_total(w, n) * (SCALE as int),
    decreases n,
{
    if n > 0 {
        lemma_weighted_sum_bound(rx, w, (n - 1) as nat, at_gold);
        let c = rx[n - 1];
        let r = ramp_spec(ramp_point(c, at_gold), c.safe as int, c.hard as int);
        lemma_ramp_laws(ramp_point(c, at_gold), ramp_point(c, at_gold), c.safe as int, c.hard as int);
        let wi = w[n - 1] as int;
        assert(0 <= wi * r <= wi * (SCALE as int)) by (nonlinear_arith)
            requires
                0 <= r <= 1_000_000int,
                0 <= wi,
        ;
    }
}

/// Computes `weighted_ramp_sum` over all coordinates.
fn weighted_ramp_total(rx: &Vec<RiskCoord>, w: &Vec<u64>, at_gold: bool) -> (r: u128)
    requires
        rx.len() == w.len(),
        weight_total(w@, w@.len()) <= u64::MAX,
    ensures
        r as int == weighted_ramp_sum(rx@, w@, rx@.len(), at_gold),
        r <= weight_total(w@, w@.len()) * (SCALE as int),
{
    let mut acc: u128 = 0;
    let mut i: usize = 0;
    while i < rx.len()
        invariant
            i <= rx.len(),
            rx.len() == w.len(),
            weight_total(w@, w@.len()) <= u64::MAX,
            acc as int == weighted_ramp_sum(rx@, w@, i as nat, at_gold),
        decreases rx.len() - i,
    {
        let c = &rx[i];
        let p: u64 = if at_gold {
            c.gold
        } else {
            c.value
        };
        let r: u64 = ramp(p, c.safe, c.hard);
        proof {
            lemma_weighted_sum_bound(rx@, w@, (i + 1) as nat, at_gold);
            lemma_weight_total_monotonic(w@, (i + 1) as nat, w@.len());
            assert(weighted_ramp_sum(rx@, w@, (i + 1) as nat, at_gold) == acc + w@[i as int] * r);
        }
        acc = acc + (w[i] as u128) * (r as u128);
        i = i + 1;
    }
    proof {
        lemma_weighted_sum_bound(rx@, w@, rx@.len(), at_gold);
    }
    acc
}

/// The aggregated safety scalar for one evaluation instant.
pub struct Residual {
    /// The aggregate, as of the last `recompute`.
    pub vt: u64,
    pub rx: Vec<RiskCoord>,
    /// Parallel to `rx`: `weights[i] == rx[i].weight`.
    pub weights: Vec<u64>,
}

impl Residual {
    /// Weights parallel to the coordinates, thresholds ordered, and a weight
    /// total that fits in a `u64`.
    pub open spec fn wf(&self) -> bool {
        &&& self.weights@.len() == self.rx@.len()
        &&& forall|i: int|
            0 <= i < self.rx@.len() ==> (#[trigger] self.rx@[i]).weight == self.weights@[i]
                && self.rx@[i].thresholds_ordered()
        &&& weight_total(self.weights@, self.weights@.len()) <= u64::MAX
    }

    /// The value `recompute` gives for the current coordinates and weights.
    pub open spec fn spec_value(&self) -> int {
        aggregate(self.rx@, self.weights@, false)
    }

    /// The aggregate that every coordinate sitting exactly on its gold
    /// threshold would give: the gold band of this residual.
    pub open spec fn gold_band(&self) -> int {
        aggregate(self.rx@, self.weights@, true)
    }

    /// Sets `vt` from the coordinates and weights; nothing else changes.
    pub fn recompute(&mut self)
        requires
            old(self).wf(),
        ensures
            final(self).rx@ == old(self).rx@,
            final(self).weights@ == old(self).weights@,
            final(self).vt as int == old(self).spec_value(),
    {
        let total = weighted_ramp_total(&self.rx, &self.weights, false);
        proof {
            lemma_div_fits(total as int, weight_total(self.weights@, self.weights@.len()));
        }
        let v: u128 = total / (SCALE as u128);
        self.vt = v as u64;
    }

    /// The gold band of this residual, in ticks.
    pub fn gold_ceiling(&self) -> (r: u64)
        requires
            self.wf(),
        ensures
            r as int == self.gold_band(),
    {
        let total = weighted_ramp_total(&self.rx, &self.weights, true);
        proof {
            lemma_div_fits(total as int, weight_total(self.weights@, self.weights@.len()));
        }
        let v: u128 = total / (SCALE as u128);
        v as u64
    }

    /// Builds a residual from its coordinates, with the weights taken from them
    /// and `vt` computed.
    pub fn new(rx: Vec<RiskCoord>) -> (r: Result<Residual, ResidualError>)
        ensures
            match r {
                Ok(res) => {
                    &&& res.wf()
                    &&& res.rx@ == rx@
                    &&& res.weights@ == coord_weights(rx@)
                    &&& res.vt as int == res.spec_value()
                    &&& forall|i: int| 0 <= i < rx@.len() ==> (#[trigger] rx@[i]).thresholds_ordered()
                },
                Err(ResidualError::InvalidThresholds { index }) => {
                    &&& index < rx@.len()
                    &&& !rx@[index as int].thresholds_ordered()
                    &&& forall|i: int| 0 <= i < index ==> (#[trigger] rx@[i]).thresholds_ordered()
                },
                Err(ResidualError::WeightOverflow) => {
                    &&& forall|i: int| 0 <= i < rx@.len() ==> (#[trigger] rx@[i]).thresholds_ordered()
                    &&& weight_total(coord_weights(rx@), rx@.len()) > u64::MAX
                },
            },
    {
        let mut i: usize = 0;
        while i < rx.len()
            invariant
                i <= rx.len(),
                forall|j: int| 0 <= j < i ==> (#[trigger] rx@[j]).thresholds_ordered(),
            decreases rx.len() - i,
        {
            if !(rx[i].safe <= rx[i].gold && rx[i].gold <= rx[i].hard) {
                return Err(ResidualError::InvalidThresholds { index: i });
            }
            i = i + 1;
        }
        let mut weights: Vec<u64> = Vec::new();
        let mut total: u64 = 0;
        let mut k: usize = 0;
        while k < rx.len()
            invariant
                k <= rx.len(),
                forall|j: int| 0 <= j < rx@.len() ==> (#[trigger] rx@[j]).thresholds_ordered(),
                weights@.len() == k,
                forall|j: int| 0 <= j < k ==> weights@[j] == (#[trigger] rx@[j]).weight,
                weights@ == coord_weights(rx@).subrange(0, k as int),
                total as int == weight_total(weights@, k as nat),
            decreases rx.len() - k,
        {
            let wk = rx[k].weight;
            proof {
                lemma_weight_total_prefix(coord_weights(rx@), (k + 1) as nat);
                lemma_weight_total_prefix(weights@.push(wk), (k + 1) as nat);
                assert(weights@.push(wk) =~= coord_weights(rx@).subrange(0, k + 1));
                assert(weights@.push(wk).subrange(0, k as int) =~= weights@);
                lemma_weight_total_prefix(weights@, k as nat);
                lemma_weight_total_prefix(weights@.push(wk), k as nat);
            }
            if total > u64::MAX - wk {
                proof {
                    let cw = coord_weights(rx@);
                    lemma_weight_total_prefix(cw, k as nat);
                    assert(cw[k as int] == wk);
                    assert(weight_total(cw, (k + 1) as nat) > u64::MAX);
                    lemma_weight_total_monotonic(cw, (k + 1) as nat, rx@.len());
                }
                return Err(ResidualError::WeightOverflow);
            }
            weights.push(wk);
            total = total + wk;
            k = k + 1;
        }
        proof {
            assert(coord_weights(rx@).subrange(0, rx@.len() as int) =~= coord_weights(rx@));
            lemma_weight_total_prefix(coord_weights(rx@), rx@.len());
        }
        let mut res = Residual { vt: 0, rx, weights };
        res.recompute();
        Ok(res)
    }
}

/// `c` is the coordinate with exactly these parts.
pub open spec fn coord_is(
    c: RiskCoord,
    varid: Seq<char>,
    value: int,
    safe: int,
    gold: int,
    hard: int,
    weight: int,
    lyapchannel: int,
) -> bool {
    &&& c.varid@ == varid
    &&& c.value == value
    &&& c.safe == safe
    &&& c.gold == gold
    &&& c.hard == hard
    &&& c.weight == weight
    &&& c.lyapchannel == lyapchannel
}

/// A coordinate from its parts, with no check of its thresholds.
pub(crate) fn coord(varid: &str, value: u64, safe: u64, gold: u64, hard: u64, weight: u64, lyapchannel: u32) -> (r: RiskCoord)
    ensures
        r.varid@ == varid@,
        r.value == value,
        r.safe == safe,
        r.gold == gold,
        r.hard == hard,
        r.weight == weight,
        r.lyapchannel == lyapchannel,
{
    RiskCoord { varid: varid.to_owned(), value, safe, gold, hard, weight, lyapchannel }
}

/// Builds the residual of coordinates whose thresholds are ordered and whose
/// weights add up to at most `u64::MAX`.
pub fn residual_of(rx: Vec<RiskCoord>) -> (r: Residual)
    requires
        forall|i: int| 0 <= i < rx@.len() ==> (#[trigger] rx@[i]).thresholds_ordered(),
        weight_total(coord_weights(rx@), rx@.len()) <= u64::MAX,
    ensures
        r.wf(),
        r.rx@ == rx@,
        r.weights@ == coord_weights(rx@),
        r.vt as int == r.spec_value(),
{
    match Residual::new(rx) {
        Ok(res) => res,
        Err(_) => {
            proof {
                assert(false);
            }
            Residual { vt: 0, rx: Vec::new(), weights: Vec::new() }
        },
    }
}

/// Recomputing is deterministic and idempotent: residuals with the same
/// coordinates and weights recompute to the same value, and a residual whose
/// `vt` came from `recompute` keeps that value when recomputed again.
pub proof fn lemma_recompute_deterministic(a: Residual, b: Residual)
    requires
        a.rx@ == b.rx@,
        a.weights@ == b.weights@,
    ensures
        a.spec_value() == b.spec_value(),
        a.vt as int == a.spec_value() ==> b.spec_value() == a.vt as int,
        a.wf() == b.wf(),
{
}

proof fn lemma_div_fits(t: int, w: int)
    requires
        0 <= t <= w * (SCALE as int),
        0 <= w,
    ensures
        t / (SCALE as int) <= w,
{
    vstd::arithmetic::div_mod::lemma_div_is_ordered(t, w * (SCALE as int), SCALE as int);
    vstd::arithmetic::div_mod::lemma_div_by_multiple(w, SCALE as int);
}

/// The weights carried by the coordinates themselves.
pub open spec fn coord_weights(rx: Seq<RiskCoord>) -> Seq<u64> {
    rx.map_values(|c: RiskCoord| c.weight)
}

proof fn lemma_weight_total_prefix(w: Seq<u64>, n: nat)
    requires
        n <= w.len(),
    ensures
        weight_total(w, n) == weight_total(w.subrange(0, n as int), n),
    decreases n,
{
    if n > 0 {
        lemma_weight_total_prefix(w, (n - 1) as nat);
        lemma_weight_total_prefix(w.subrange(0, n as int), (n - 1) as nat);
        assert(w.subrange(0, n as int).subrange(0, n - 1) =~= w.subrange(0, n - 1));
    }
}

} // verus!
